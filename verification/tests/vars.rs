use std::collections::BTreeMap;

use nuttty::vars::VarMap;

#[test]
fn variables_are_kept_in_the_order_of_their_names() {
    let mut map = VarMap::new();
    let mut reference: BTreeMap<String, String> = BTreeMap::new();
    for (i, name) in [
        "ups.status", "battery.charge", "a", "", "b.b", "b", "battery.charge.low", "é", "z", "Z", "a",
        "ups.status", "b.b", "~", "ups",
    ]
    .iter()
    .enumerate()
    {
        map.insert(name.to_string(), i.to_string());
        reference.insert(name.to_string(), i.to_string());
        assert_eq!(map.len(), reference.len());
        let listed: Vec<(String, String)> = reference.clone().into_iter().collect();
        assert_eq!(*map.entries(), listed);
    }
    for name in ["a", "b", "ups.status", "", "no", "ups.", "battery"] {
        assert_eq!(map.get(name), reference.get(name).map(String::as_str));
    }
}

#[test]
fn the_order_of_insertion_does_not_show() {
    let names = ["c", "a", "b", "ab"];
    let mut forth = VarMap::new();
    let mut back = VarMap::new();
    for n in names {
        forth.insert(n.into(), n.into());
    }
    for n in names.iter().rev() {
        back.insert(n.to_string(), n.to_string());
    }
    assert_eq!(forth.entries(), back.entries());
}
