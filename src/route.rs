//! What one record of the host's route dump shows: which addresses a line
//! carries and whether it is annotated. Reading the records and printing the
//! addresses are left to the caller.
use vstd::prelude::*;

verus! {

/// The attribute kinds of a route record that a line reads.
#[derive(Clone, Copy, Debug, PartialEq, Eq, Structural)]
pub enum RouteAttrKind {
    Dst,
    Prefsrc,
    Gateway,
    Other,
}

/// One attribute of a route record, with its raw payload.
pub struct RouteAttr {
    pub kind: RouteAttrKind,
    pub payload: Vec<u8>,
}

/// The parts of a route record that decide its line.
pub struct RouteRecord {
    /// The record belongs to the main routing table.
    pub main_table: bool,
    pub dst_len: u8,
    /// The record's scope is the universal (global) one.
    pub universe_scope: bool,
    pub attrs: Vec<RouteAttr>,
}

/// What one line of the route listing shows. Addresses are octets, four for
/// IPv4 and sixteen for IPv6.
pub struct RouteLine {
    /// The destination and its prefix length; absent for the default route.
    pub dst: Option<(Vec<u8>, u8)>,
    /// The gateway, shown only for the default route.
    pub gateway: Option<Vec<u8>>,
    /// Protocol and scope are shown.
    pub annotate: bool,
    /// The preferred source address.
    pub src: Option<Vec<u8>>,
}

/// A payload read as an address: exactly four or sixteen octets.
pub open spec fn address_of(b: Seq<u8>) -> Option<Seq<u8>> {
    if b.len() == 4 || b.len() == 16 {
        Some(b)
    } else {
        None
    }
}

/// The address of the last attribute of kind `k`: a later attribute of the
/// same kind replaces an earlier one, even where its payload is no address.
pub open spec fn selected(attrs: Seq<RouteAttr>, k: RouteAttrKind) -> Option<Seq<u8>>
    decreases attrs.len(),
{
    if attrs.len() == 0 {
        None
    } else if attrs.last().kind == k {
        address_of(attrs.last().payload@)
    } else {
        selected(attrs.drop_last(), k)
    }
}

pub open spec fn bytes_opt(o: Option<Vec<u8>>) -> Option<Seq<u8>> {
    match o {
        Some(v) => Some(v@),
        None => None,
    }
}

pub open spec fn prefix_opt(o: Option<(Vec<u8>, u8)>) -> Option<(Seq<u8>, u8)> {
    match o {
        Some(p) => Some((p.0@, p.1)),
        None => None,
    }
}

/// The line that `rec` shows, or nothing when it is not in the main table.
pub open spec fn line_matches(rec: RouteRecord, line: RouteLine) -> bool {
    let dst = selected(rec.attrs@, RouteAttrKind::Dst);
    &&& prefix_opt(line.dst) == match dst {
        Some(a) => Some((a, rec.dst_len)),
        None => None::<(Seq<u8>, u8)>,
    }
    &&& bytes_opt(line.gateway) == if dst is Some {
        None
    } else {
        selected(rec.attrs@, RouteAttrKind::Gateway)
    }
    &&& line.annotate == !rec.universe_scope
    &&& bytes_opt(line.src) == selected(rec.attrs@, RouteAttrKind::Prefsrc)
}

fn copy_bytes(b: &Vec<u8>) -> (r: Vec<u8>)
    ensures
        r@ == b@,
{
    let mut out: Vec<u8> = Vec::new();
    let mut i: usize = 0;
    while i < b.len()
        invariant
            i <= b@.len(),
            out@ == b@.subrange(0, i as int),
        decreases b@.len() - i,
    {
        out.push(b[i]);
        i = i + 1;
    }
    out
}

/// Reads a payload as an address: four octets (IPv4) or sixteen (IPv6).
pub fn to_addr(b: &Vec<u8>) -> (r: Option<Vec<u8>>)
    ensures
        bytes_opt(r) == address_of(b@),
{
    if b.len() == 4 || b.len() == 16 {
        Some(copy_bytes(b))
    } else {
        None
    }
}

/// The line of the route listing for `rec`; `None` for a record outside the
/// main table.
pub fn route_line(rec: &RouteRecord) -> (r: Option<RouteLine>)
    ensures
        r is None <==> !rec.main_table,
        r matches Some(line) ==> line_matches(*rec, line),
{
    if !rec.main_table {
        return None;
    }
    let mut dst: Option<Vec<u8>> = None;
    let mut src: Option<Vec<u8>> = None;
    let mut gateway: Option<Vec<u8>> = None;
    let n = rec.attrs.len();
    let mut i: usize = 0;
    while i < n
        invariant
            n == rec.attrs@.len(),
            i <= n,
            bytes_opt(dst) == selected(rec.attrs@.subrange(0, i as int), RouteAttrKind::Dst),
            bytes_opt(src) == selected(rec.attrs@.subrange(0, i as int), RouteAttrKind::Prefsrc),
            bytes_opt(gateway) == selected(
                rec.attrs@.subrange(0, i as int),
                RouteAttrKind::Gateway,
            ),
        decreases n - i,
    {
        let a = &rec.attrs[i];
        proof {
            let pre = rec.attrs@.subrange(0, i as int + 1);
            assert(pre.drop_last() =~= rec.attrs@.subrange(0, i as int));
            assert(pre.last() == rec.attrs@[i as int]);
        }
        match a.kind {
            RouteAttrKind::Dst => dst = to_addr(&a.payload),
            RouteAttrKind::Prefsrc => src = to_addr(&a.payload),
            RouteAttrKind::Gateway => gateway = to_addr(&a.payload),
            RouteAttrKind::Other => {},
        }
        i = i + 1;
    }
    proof {
        assert(rec.attrs@.subrange(0, n as int) =~= rec.attrs@);
    }
    let line_dst = match dst {
        Some(d) => Some((d, rec.dst_len)),
        None => None,
    };
    let line_gateway = if line_dst.is_some() {
        None
    } else {
        gateway
    };
    Some(
        RouteLine {
            dst: line_dst,
            gateway: line_gateway,
            annotate: !rec.universe_scope,
            src: src,
        },
    )
}

} // verus!
