//! Reading the compact forms of volumes (`source:target[:ro]`), ports
//! (`[host:]container[/proto]`) and memory sizes (`512m`, `1g`).
use crate::runtime::{PortMapping, Protocol, VolumeMount};
use crate::text::{
    all_digits, digits_value, lemma_split_joined, lemma_split_none, first_index,
    chars_of, has_in, parse_uint, parse_uint_range, pieces, split_bounds, split_seq, str_eq,
    substring,
};
use vstd::prelude::*;

verus! {

/// What `parse_volume_mount` makes of `s`: source, target, read-only.
pub open spec fn volume_mount_view(s: Seq<char>) -> Option<(Seq<char>, Seq<char>, bool)> {
    let p = split_seq(s, ':');
    if p.len() == 2 {
        Some((p[0], p[1], false))
    } else if p.len() == 3 {
        Some((p[0], p[1], p[2] == "ro"@))
    } else {
        None
    }
}

/// Parses `source:target` or `source:target:mode`; the mount is read-only when
/// the mode is `ro`.
pub fn parse_volume_mount(spec: &str) -> (r: Option<VolumeMount>)
    ensures
        match volume_mount_view(spec@) {
            Some((source, target, ro)) => r is Some && r->0.source@ == source && r->0.target@
                == target && r->0.read_only == ro,
            None => r is None,
        },
{
    let v = chars_of(spec);
    let parts = split_bounds(&v, 0, v.len(), ':');
    assert(v@.subrange(0, v@.len() as int) =~= spec@);
    let ghost p = pieces(v@, parts@);
    if parts.len() == 2 {
        assert(p[0] == v@.subrange(parts@[0].0 as int, parts@[0].1 as int));
        assert(p[1] == v@.subrange(parts@[1].0 as int, parts@[1].1 as int));
        Some(
            VolumeMount {
                source: substring(spec, parts[0].0, parts[0].1),
                target: substring(spec, parts[1].0, parts[1].1),
                read_only: false,
            },
        )
    } else if parts.len() == 3 {
        assert(p[0] == v@.subrange(parts@[0].0 as int, parts@[0].1 as int));
        assert(p[1] == v@.subrange(parts@[1].0 as int, parts@[1].1 as int));
        assert(p[2] == v@.subrange(parts@[2].0 as int, parts@[2].1 as int));
        let mode = substring(spec, parts[2].0, parts[2].1);
        Some(
            VolumeMount {
                source: substring(spec, parts[0].0, parts[0].1),
                target: substring(spec, parts[1].0, parts[1].1),
                read_only: str_eq(mode.as_str(), "ro"),
            },
        )
    } else {
        None
    }
}

/// A mount written `source:target:mode` (no part holding a `:`) has that
/// source and target, and is read-only exactly when the mode is `ro`; written
/// `source:target`, it is writable.
pub proof fn lemma_volume_mount_mode(source: Seq<char>, target: Seq<char>, mode: Seq<char>)
    requires
        forall|i: int| 0 <= i < source.len() ==> source[i] != ':',
        forall|i: int| 0 <= i < target.len() ==> target[i] != ':',
        forall|i: int| 0 <= i < mode.len() ==> mode[i] != ':',
    ensures
        volume_mount_view(source + seq![':'] + target + seq![':'] + mode) == Some(
            (source, target, mode == "ro"@),
        ),
        volume_mount_view(source + seq![':'] + target) == Some((source, target, false)),
{
    lemma_split_none(mode, ':');
    lemma_split_joined(target, ':', mode);
    let rest = target + seq![':'] + mode;
    lemma_split_joined(source, ':', rest);
    assert(source + seq![':'] + target + seq![':'] + mode =~= source + seq![':'] + rest);
    assert(split_seq(source + seq![':'] + rest, ':') =~= seq![source, target, mode]);
    lemma_split_none(target, ':');
    lemma_split_joined(source, ':', target);
    assert(split_seq(source + seq![':'] + target, ':') =~= seq![source, target]);
}

/// A memory size is read with its suffix in either case: `<n>k`, `<n>m` and
/// `<n>g` are `n` KiB, MiB and GiB whether the letter is lower or upper case,
/// and digits alone are bytes.
pub proof fn lemma_memory_suffix_any_case(n: Seq<char>)
    requires
        n.len() > 0,
        all_digits(n),
        digits_value(n) <= 0xffff_ffff_ffff_ffff,
    ensures
        memory_product(n) == Some(digits_value(n)),
        memory_product(n + seq!['k']) == Some(digits_value(n) * 1024),
        memory_product(n + seq!['K']) == Some(digits_value(n) * 1024),
        memory_product(n + seq!['m']) == Some(digits_value(n) * 1048576),
        memory_product(n + seq!['M']) == Some(digits_value(n) * 1048576),
        memory_product(n + seq!['g']) == Some(digits_value(n) * 1073741824),
        memory_product(n + seq!['G']) == Some(digits_value(n) * 1073741824),
{
    assert(crate::text::is_digit(n[0]));
    assert(crate::text::is_digit(n.last()));
    assert(parse_uint(n, 0xffff_ffff_ffff_ffff) == Some(digits_value(n)));
    assert((n + seq!['k']).drop_last() =~= n);
    assert((n + seq!['K']).drop_last() =~= n);
    assert((n + seq!['m']).drop_last() =~= n);
    assert((n + seq!['M']).drop_last() =~= n);
    assert((n + seq!['g']).drop_last() =~= n);
    assert((n + seq!['G']).drop_last() =~= n);
}

/// The port part and protocol of a port specification.
pub open spec fn port_and_protocol(s: Seq<char>) -> (Seq<char>, Protocol) {
    if s.contains('/') {
        let parts = split_seq(s, '/');
        (
            parts[0],
            if parts.len() > 1 && parts[1] == "udp"@ {
                Protocol::Udp
            } else {
                Protocol::Tcp
            },
        )
    } else {
        (s, Protocol::Tcp)
    }
}

/// What `parse_port_mapping` makes of `s`: host port, container port, protocol.
pub open spec fn port_mapping_view(s: Seq<char>) -> Option<(Option<u16>, u16, Protocol)> {
    let (port_part, proto) = port_and_protocol(s);
    let parts = split_seq(port_part, ':');
    if parts.len() == 1 {
        match parse_uint(parts[0], 65535) {
            Some(c) => Some((None, c as u16, proto)),
            None => None,
        }
    } else if parts.len() == 2 {
        match (parse_uint(parts[0], 65535), parse_uint(parts[1], 65535)) {
            (Some(h), Some(c)) => Some((Some(h as u16), c as u16, proto)),
            _ => None,
        }
    } else {
        None
    }
}

proof fn lemma_split_nonempty(s: Seq<char>, c: char)
    ensures
        split_seq(s, c).len() >= 1,
    decreases s.len(),
{
    reveal(split_seq);
    match crate::text::first_index(s, c) {
        Some(i) => if 0 <= i < s.len() {
            lemma_split_nonempty(s.skip(i + 1), c);
        },
        None => {},
    }
}

/// The bounds of the port part and the protocol of `spec`.
fn port_part_bounds(spec: &str, v: &Vec<char>) -> (r: (usize, usize, Protocol))
    requires
        v@ == spec@,
    ensures
        r.0 <= r.1 <= v@.len(),
        v@.subrange(r.0 as int, r.1 as int) == port_and_protocol(spec@).0,
        r.2 == port_and_protocol(spec@).1,
{
    assert(v@.subrange(0, v@.len() as int) =~= spec@);
    if has_in(v, 0, v.len(), '/') {
        let parts = split_bounds(v, 0, v.len(), '/');
        proof {
            lemma_split_nonempty(spec@, '/');
        }
        let ghost p = pieces(v@, parts@);
        assert(p[0] == v@.subrange(parts@[0].0 as int, parts@[0].1 as int));
        let proto = if parts.len() > 1 {
            assert(p[1] == v@.subrange(parts@[1].0 as int, parts@[1].1 as int));
            let second = substring(spec, parts[1].0, parts[1].1);
            if str_eq(second.as_str(), "udp") {
                Protocol::Udp
            } else {
                Protocol::Tcp
            }
        } else {
            Protocol::Tcp
        };
        (parts[0].0, parts[0].1, proto)
    } else {
        (0, v.len(), Protocol::Tcp)
    }
}

/// Parses `container`, `host:container`, either with `/tcp` or `/udp`
/// (anything but `udp` after the slash means TCP).
pub fn parse_port_mapping(spec: &str) -> (r: Option<PortMapping>)
    ensures
        match port_mapping_view(spec@) {
            Some((host, container, proto)) => r is Some && r->0.host_port == host
                && r->0.container_port == container && r->0.protocol == proto
                && r->0.host_ip is None,
            None => r is None,
        },
{
    let v = chars_of(spec);
    let (a, b, protocol) = port_part_bounds(spec, &v);
    let parts = split_bounds(&v, a, b, ':');
    let ghost p = pieces(v@, parts@);
    if parts.len() == 1 {
        assert(p[0] == v@.subrange(parts@[0].0 as int, parts@[0].1 as int));
        match parse_uint_range(&v, parts[0].0, parts[0].1, 65535) {
            Some(c) => Some(
                PortMapping { host_port: None, container_port: c as u16, protocol, host_ip: None },
            ),
            None => None,
        }
    } else if parts.len() == 2 {
        assert(p[0] == v@.subrange(parts@[0].0 as int, parts@[0].1 as int));
        assert(p[1] == v@.subrange(parts@[1].0 as int, parts@[1].1 as int));
        let h = parse_uint_range(&v, parts[0].0, parts[0].1, 65535);
        let c = parse_uint_range(&v, parts[1].0, parts[1].1, 65535);
        match (h, c) {
            (Some(h), Some(c)) => Some(
                PortMapping {
                    host_port: Some(h as u16),
                    container_port: c as u16,
                    protocol,
                    host_ip: None,
                },
            ),
            _ => None,
        }
    } else {
        None
    }
}

/// A size suffix, compared case-insensitively as `str::to_lowercase` would:
/// the Kelvin sign `K` (U+212A) lowercases to `k` as well.
pub open spec fn suffix_multiplier(c: char) -> nat {
    if c == 'g' || c == 'G' {
        1024 * 1024 * 1024
    } else if c == 'm' || c == 'M' {
        1024 * 1024
    } else if c == 'k' || c == 'K' || c == '\u{212a}' {
        1024
    } else {
        1
    }
}

/// The number and multiplier a memory size writes, the product not yet bounded.
pub open spec fn memory_product(s: Seq<char>) -> Option<nat> {
    let (num, mult) = if s.len() > 0 && suffix_multiplier(s.last()) > 1 {
        (s.drop_last(), suffix_multiplier(s.last()))
    } else {
        (s, 1nat)
    };
    match parse_uint(num, 0xffff_ffff_ffff_ffff) {
        Some(n) => Some(n * mult),
        None => None,
    }
}

/// Parses a memory size such as `512m` or `1g` into bytes (suffixes `k`, `m`,
/// `g` in either case, powers of 1024). The size must fit in 64 bits.
pub fn parse_memory_string(spec: &str) -> (r: Option<u64>)
    requires
        memory_product(spec@) matches Some(n) ==> n <= 0xffff_ffff_ffff_ffff,
    ensures
        match memory_product(spec@) {
            Some(n) => r == Some(n as u64),
            None => r is None,
        },
{
    let v = chars_of(spec);
    let n = v.len();
    let (end, mult): (usize, u64) = if n > 0 {
        let c = v[n - 1];
        if c == 'g' || c == 'G' {
            (n - 1, 1024 * 1024 * 1024)
        } else if c == 'm' || c == 'M' {
            (n - 1, 1024 * 1024)
        } else if c == 'k' || c == 'K' || c == '\u{212a}' {
            (n - 1, 1024)
        } else {
            (n, 1)
        }
    } else {
        (n, 1)
    };
    assert(v@.subrange(0, end as int) =~= (if v@.len() > 0 && suffix_multiplier(v@.last()) > 1 {
        v@.drop_last()
    } else {
        v@
    }));
    match parse_uint_range(&v, 0, end, 0xffff_ffff_ffff_ffff) {
        Some(num) => {
            assert(num as nat * mult as nat <= 0xffff_ffff_ffff_ffff);
            Some(num * mult)
        },
        None => None,
    }
}

/// Whether the memory size that `s` writes, if any, fits in 64 bits.
pub open spec fn memory_fits(s: Seq<char>) -> bool {
    memory_product(s) matches Some(n) ==> n <= 0xffff_ffff_ffff_ffff
}

/// Whether `spec`, read as a memory size, stays within 64 bits: the condition
/// under which `parse_memory_string` may be called.
pub fn memory_size_fits(spec: &str) -> (r: bool)
    ensures
        r == memory_fits(spec@),
{
    let v = chars_of(spec);
    let n = v.len();
    let (end, mult): (usize, u64) = if n > 0 {
        let c = v[n - 1];
        if c == 'g' || c == 'G' {
            (n - 1, 1024 * 1024 * 1024)
        } else if c == 'm' || c == 'M' {
            (n - 1, 1024 * 1024)
        } else if c == 'k' || c == 'K' || c == '\u{212a}' {
            (n - 1, 1024)
        } else {
            (n, 1)
        }
    } else {
        (n, 1)
    };
    assert(v@.subrange(0, end as int) =~= (if v@.len() > 0 && suffix_multiplier(v@.last()) > 1 {
        v@.drop_last()
    } else {
        v@
    }));
    match parse_uint_range(&v, 0, end, 0xffff_ffff_ffff_ffff) {
        Some(num) => {
            let limit: u64 = 0xffff_ffff_ffff_ffff;
            assert(num <= limit / mult <==> num * mult <= limit) by (nonlinear_arith)
                requires
                    mult > 0,
            ;
            num <= limit / mult
        },
        None => true,
    }
}

/// A bind mount as plain values.
pub open spec fn mount_view(m: VolumeMount) -> (Seq<char>, Seq<char>, bool) {
    (m.source@, m.target@, m.read_only)
}

/// A published port as plain values.
pub open spec fn port_view(p: PortMapping) -> (Option<u16>, u16, Protocol) {
    (p.host_port, p.container_port, p.protocol)
}

/// The mounts that the well-formed entries of `specs` describe, in order;
/// malformed entries are skipped.
pub open spec fn parsed_mounts(specs: Seq<String>) -> Seq<(Seq<char>, Seq<char>, bool)>
    decreases specs.len(),
{
    if specs.len() == 0 {
        Seq::empty()
    } else {
        parsed_mounts(specs.drop_last()) + match volume_mount_view(specs.last()@) {
            Some(m) => seq![m],
            None => Seq::empty(),
        }
    }
}

/// The ports that the well-formed entries of `specs` describe, in order;
/// malformed entries are skipped.
pub open spec fn parsed_ports(specs: Seq<String>) -> Seq<(Option<u16>, u16, Protocol)>
    decreases specs.len(),
{
    if specs.len() == 0 {
        Seq::empty()
    } else {
        parsed_ports(specs.drop_last()) + match port_mapping_view(specs.last()@) {
            Some(p) => seq![p],
            None => Seq::empty(),
        }
    }
}

/// Parses each volume entry, keeping those that parse.
pub fn parse_volume_mounts(specs: &Vec<String>) -> (r: Vec<VolumeMount>)
    ensures
        r@.map_values(|m: VolumeMount| mount_view(m)) == parsed_mounts(specs@),
{
    let mut out: Vec<VolumeMount> = Vec::new();
    let mut i: usize = 0;
    while i < specs.len()
        invariant
            i <= specs.len(),
            out@.map_values(|m: VolumeMount| mount_view(m)) == parsed_mounts(specs@.subrange(0, i as int)),
        decreases specs.len() - i,
    {
        let ghost before = out@;
        assert(specs@.subrange(0, i + 1).drop_last() =~= specs@.subrange(0, i as int));
        match parse_volume_mount(specs[i].as_str()) {
            Some(m) => {
                out.push(m);
            },
            None => {},
        }
        assert(out@.map_values(|m: VolumeMount| mount_view(m)) =~= parsed_mounts(
            specs@.subrange(0, i + 1),
        ));
        i = i + 1;
    }
    assert(specs@.subrange(0, specs@.len() as int) =~= specs@);
    out
}

/// Parses each port entry, keeping those that parse.
pub fn parse_port_mappings(specs: &Vec<String>) -> (r: Vec<PortMapping>)
    ensures
        r@.map_values(|p: PortMapping| port_view(p)) == parsed_ports(specs@),
        forall|i: int| 0 <= i < r@.len() ==> (#[trigger] r@[i]).host_ip is None,
{
    let mut out: Vec<PortMapping> = Vec::new();
    let mut i: usize = 0;
    while i < specs.len()
        invariant
            i <= specs.len(),
            out@.map_values(|p: PortMapping| port_view(p)) == parsed_ports(specs@.subrange(0, i as int)),
            forall|j: int| 0 <= j < out@.len() ==> (#[trigger] out@[j]).host_ip is None,
        decreases specs.len() - i,
    {
        assert(specs@.subrange(0, i + 1).drop_last() =~= specs@.subrange(0, i as int));
        match parse_port_mapping(specs[i].as_str()) {
            Some(p) => {
                out.push(p);
            },
            None => {},
        }
        assert(out@.map_values(|p: PortMapping| port_view(p)) =~= parsed_ports(
            specs@.subrange(0, i + 1),
        ));
        i = i + 1;
    }
    assert(specs@.subrange(0, specs@.len() as int) =~= specs@);
    out
}

} // verus!
