use wesh::route::{route_line, to_addr, RouteAttr, RouteAttrKind, RouteRecord};

fn attr(kind: RouteAttrKind, payload: &[u8]) -> RouteAttr {
    RouteAttr { kind: kind, payload: payload.to_vec() }
}

#[test]
fn addresses_by_length() {
    assert_eq!(to_addr(&vec![10, 0, 0, 1]), Some(vec![10, 0, 0, 1]));
    let v6: Vec<u8> = (0..16).collect();
    assert_eq!(to_addr(&v6), Some(v6.clone()));
    assert_eq!(to_addr(&vec![1, 2, 3, 4, 5]), None);
    assert_eq!(to_addr(&vec![]), None);
}

#[test]
fn other_tables_show_nothing() {
    let rec = RouteRecord {
        main_table: false,
        dst_len: 24,
        universe_scope: true,
        attrs: vec![attr(RouteAttrKind::Dst, &[10, 0, 0, 0])],
    };
    assert!(route_line(&rec).is_none());
}

#[test]
fn destination_hides_gateway() {
    let rec = RouteRecord {
        main_table: true,
        dst_len: 24,
        universe_scope: false,
        attrs: vec![
            attr(RouteAttrKind::Gateway, &[10, 0, 0, 254]),
            attr(RouteAttrKind::Dst, &[10, 0, 0, 0]),
            attr(RouteAttrKind::Prefsrc, &[10, 0, 0, 5]),
            attr(RouteAttrKind::Other, &[9, 9]),
        ],
    };
    let line = route_line(&rec).unwrap();
    assert_eq!(line.dst, Some((vec![10, 0, 0, 0], 24)));
    assert_eq!(line.gateway, None);
    assert!(line.annotate);
    assert_eq!(line.src, Some(vec![10, 0, 0, 5]));
}

#[test]
fn default_route_via_gateway() {
    let rec = RouteRecord {
        main_table: true,
        dst_len: 0,
        universe_scope: true,
        attrs: vec![attr(RouteAttrKind::Gateway, &[192, 168, 1, 1])],
    };
    let line = route_line(&rec).unwrap();
    assert_eq!(line.dst, None);
    assert_eq!(line.gateway, Some(vec![192, 168, 1, 1]));
    assert!(!line.annotate);
    assert_eq!(line.src, None);
}

#[test]
fn later_attribute_replaces_earlier() {
    let rec = RouteRecord {
        main_table: true,
        dst_len: 8,
        universe_scope: true,
        attrs: vec![
            attr(RouteAttrKind::Dst, &[10, 0, 0, 0]),
            attr(RouteAttrKind::Dst, &[1, 2, 3]),
            attr(RouteAttrKind::Prefsrc, &[1, 1, 1, 1]),
            attr(RouteAttrKind::Prefsrc, &[2, 2, 2, 2]),
        ],
    };
    let line = route_line(&rec).unwrap();
    assert_eq!(line.dst, None);
    assert_eq!(line.src, Some(vec![2, 2, 2, 2]));
}
