//! What a frame is made of: a list of items, each with its area and contents.
//! Whoever holds the terminal draws them one after the other.

use vstd::prelude::*;

use crate::geometry::Rect;
use crate::history;
use crate::history::{Sample, SampleModel};
use crate::style;
use crate::style::{Line, LineModel, Style};
use crate::text;

verus! {

/// Where a text stands between the edges of its area.
#[derive(Clone, Copy, Debug, PartialEq, Eq, Structural)]
pub enum Align {
    Left,
    Center,
    Right,
}

/// A border all round, with or without a title.
pub struct Border {
    pub title: Option<String>,
    pub style: Style,
}

/// A [`Border`], its title taken by its characters.
#[verifier::ext_equal]
pub struct BorderModel {
    pub title: Option<Seq<char>>,
    pub style: Style,
}

impl View for Border {
    type V = BorderModel;

    open spec fn view(&self) -> BorderModel {
        BorderModel { title: text::opt_view(self.title), style: self.style }
    }
}

/// Lines of text in an area.
pub struct Panel {
    pub area: Rect,
    pub lines: Vec<Line>,
    pub align: Align,
    pub style: Style,
    pub border: Option<Border>,
}

/// A [`Panel`], its texts taken by their characters.
#[verifier::ext_equal]
pub struct PanelModel {
    pub area: Rect,
    pub lines: Seq<LineModel>,
    pub align: Align,
    pub style: Style,
    pub border: Option<BorderModel>,
}

impl View for Panel {
    type V = PanelModel;

    open spec fn view(&self) -> PanelModel {
        PanelModel {
            area: self.area,
            lines: style::lines_view(self.lines@),
            align: self.align,
            style: self.style,
            border: match self.border {
                Some(b) => Some(b@),
                None => None,
            },
        }
    }
}

/// A curve of a chart: what it is called, how it looks, and the samples that it is
/// drawn through.
pub struct Series {
    pub name: String,
    pub style: Style,
    pub samples: Vec<Sample>,
}

/// A [`Series`], its texts taken by their characters.
#[verifier::ext_equal]
pub struct SeriesModel {
    pub name: Seq<char>,
    pub style: Style,
    pub samples: Seq<SampleModel>,
}

impl View for Series {
    type V = SeriesModel;

    open spec fn view(&self) -> SeriesModel {
        SeriesModel {
            name: self.name@,
            style: self.style,
            samples: history::samples_view(self.samples@),
        }
    }
}

/// An axis of a chart: how it looks, the values at its ends, and the labels that are
/// spread over it.
pub struct Axis {
    pub style: Style,
    pub low: i64,
    pub high: i64,
    pub labels: Vec<String>,
}

/// An [`Axis`], its texts taken by their characters.
#[verifier::ext_equal]
pub struct AxisModel {
    pub style: Style,
    pub low: int,
    pub high: int,
    pub labels: Seq<Seq<char>>,
}

impl View for Axis {
    type V = AxisModel;

    open spec fn view(&self) -> AxisModel {
        AxisModel {
            style: self.style,
            low: self.low as int,
            high: self.high as int,
            labels: text::strings_view(self.labels@),
        }
    }
}

/// One thing that is drawn.
pub enum Item {
    /// Nothing: what was there is wiped out.
    Clear(Rect),
    /// Text.
    Panel(Panel),
    /// A bar with a label, as full as the value says: a text that denotes a percentage.
    Gauge { area: Rect, value: String, label: String, style: Style },
    /// The charge over time, and the level at which the device cuts off, a text that
    /// denotes a percentage, as a line with a name and a style. Times are in seconds
    /// from `now`.
    BatteryChart {
        area: Rect,
        title: String,
        cutoff: String,
        cutoff_level: String,
        cutoff_style: Style,
        charge: Series,
        now: u128,
        x: Axis,
        y: Axis,
    },
    /// The voltages over time, in seconds from `now`. The upright axis follows the
    /// samples.
    VoltageChart {
        area: Rect,
        title: String,
        input: Series,
        output: Series,
        now: u128,
        x: Axis,
        y_style: Style,
    },
    /// The rows of the menu, with its cursor; the selected row in a style of its own.
    Menu { area: Rect, title: String, lines: Vec<Line>, selected: Style },
    /// All variables, with the cursor of the table; the selected row in a style of its
    /// own. The columns share the width in the given proportion.
    Table {
        area: Rect,
        title: String,
        header: (String, String),
        header_style: Style,
        widths: (u16, u16),
        rows: Vec<(String, String)>,
        selected: Style,
    },
}

/// An [`Item`], its texts taken by their characters.
pub enum ItemModel {
    Clear(Rect),
    Panel(PanelModel),
    Gauge { area: Rect, value: Seq<char>, label: Seq<char>, style: Style },
    BatteryChart {
        area: Rect,
        title: Seq<char>,
        cutoff: Seq<char>,
        cutoff_level: Seq<char>,
        cutoff_style: Style,
        charge: SeriesModel,
        now: u128,
        x: AxisModel,
        y: AxisModel,
    },
    VoltageChart {
        area: Rect,
        title: Seq<char>,
        input: SeriesModel,
        output: SeriesModel,
        now: u128,
        x: AxisModel,
        y_style: Style,
    },
    Menu { area: Rect, title: Seq<char>, lines: Seq<LineModel>, selected: Style },
    Table {
        area: Rect,
        title: Seq<char>,
        header: (Seq<char>, Seq<char>),
        header_style: Style,
        widths: (u16, u16),
        rows: Seq<(Seq<char>, Seq<char>)>,
        selected: Style,
    },
}

impl View for Item {
    type V = ItemModel;

    open spec fn view(&self) -> ItemModel {
        match *self {
            Item::Clear(area) => ItemModel::Clear(area),
            Item::Panel(p) => ItemModel::Panel(p@),
            Item::Gauge { area, value, label, style } => ItemModel::Gauge {
                area,
                value: value@,
                label: label@,
                style,
            },
            Item::BatteryChart {
                area,
                title,
                cutoff,
                cutoff_level,
                cutoff_style,
                charge,
                now,
                x,
                y,
            } => ItemModel::BatteryChart {
                area,
                title: title@,
                cutoff: cutoff@,
                cutoff_level: cutoff_level@,
                cutoff_style,
                charge: charge@,
                now,
                x: x@,
                y: y@,
            },
            Item::VoltageChart { area, title, input, output, now, x, y_style } => {
                ItemModel::VoltageChart {
                    area,
                    title: title@,
                    input: input@,
                    output: output@,
                    now,
                    x: x@,
                    y_style,
                }
            },
            Item::Menu { area, title, lines, selected } => ItemModel::Menu {
                area,
                title: title@,
                lines: style::lines_view(lines@),
                selected,
            },
            Item::Table { area, title, header, header_style, widths, rows, selected } => {
                ItemModel::Table {
                    area,
                    title: title@,
                    header: (header.0@, header.1@),
                    header_style,
                    widths,
                    rows: text::pairs_view(rows@),
                    selected,
                }
            },
        }
    }
}

/// Where an item is drawn.
pub open spec fn area_of(x: ItemModel) -> Rect {
    match x {
        ItemModel::Clear(area) => area,
        ItemModel::Panel(p) => p.area,
        ItemModel::Gauge { area, .. } => area,
        ItemModel::BatteryChart { area, .. } => area,
        ItemModel::VoltageChart { area, .. } => area,
        ItemModel::Menu { area, .. } => area,
        ItemModel::Table { area, .. } => area,
    }
}

/// What is drawn, one after the other.
pub open spec fn items_view(s: Seq<Item>) -> Seq<ItemModel> {
    s.map_values(|x: Item| x@)
}

/// A border with a title.
pub open spec fn titled(title: Seq<char>, s: Style) -> Option<BorderModel> {
    Some(BorderModel { title: Some(title), style: s })
}

pub fn border_with(title: &str, s: Style) -> (res: Option<Border>)
    ensures
        match res {
            Some(b) => titled(title@, s) == Some(b@),
            None => false,
        },
{
    Some(Border { title: Some(title.to_owned()), style: s })
}

/// Lines of text in the plain style.
pub open spec fn panel(
    area: Rect,
    lines: Seq<LineModel>,
    align: Align,
    border: Option<BorderModel>,
) -> ItemModel {
    ItemModel::Panel(PanelModel { area, lines, align, style: style::plain(), border })
}

pub fn make_panel(area: Rect, lines: Vec<Line>, align: Align, border: Option<Border>) -> (res: Item)
    ensures
        res@ == panel(
            area,
            style::lines_view(lines@),
            align,
            match border {
                Some(b) => Some(b@),
                None => None,
            },
        ),
{
    Item::Panel(Panel { area, lines, align, style: Style::plain(), border })
}

} // verus!
