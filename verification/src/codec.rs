use crate::config::{
    default_node_config, default_node_root, default_p2p_config, default_rocks_path,
    default_rpc_address, default_tracing_path, ConfigV, JsonRpcServerConfig, NodeConfig, P2pConfig,
    RamdConfig, RocksConfig, TracingConfig,
};
use crate::errors::ConfigError;
use vstd::prelude::*;
use vstd::string::*;

verus! {

// The config document is a fixed-schema TOML text: five section
// headers in a fixed order, each followed by its keys, every value a
// basic string on its own line (the RPC address included). Inside a
// value, `"` and `\` are escaped with a backslash, so every value
// round-trips without loss. Sections and keys may be omitted; an
// omitted key keeps its default value.

pub open spec fn hdr_node() -> Seq<char> {
    "[node]\n"@
}

pub open spec fn hdr_rocks() -> Seq<char> {
    "[rocks]\n"@
}

pub open spec fn hdr_rpc() -> Seq<char> {
    "[json_rpc]\n"@
}

pub open spec fn hdr_p2p() -> Seq<char> {
    "[p2p]\n"@
}

pub open spec fn hdr_tracing() -> Seq<char> {
    "[tracing]\n"@
}

pub open spec fn key_root() -> Seq<char> {
    "root_path = \""@
}

pub open spec fn key_config() -> Seq<char> {
    "config_path = \""@
}

pub open spec fn key_path() -> Seq<char> {
    "path = \""@
}

pub open spec fn key_address() -> Seq<char> {
    "address = \""@
}

/// The closing quote of a value line followed by its line break.
pub open spec fn qnl() -> Seq<char> {
    "\"\n"@
}

/// How one character stands inside a quoted value: `"` and `\` behind
/// a backslash, every other character as itself.
pub open spec fn esc_char(c: char) -> Seq<char> {
    if c == '"' || c == '\\' {
        seq!['\\', c]
    } else {
        seq![c]
    }
}

/// The escaped form of a value, as it stands between the quotes of
/// its line.
pub open spec fn esc(s: Seq<char>) -> Seq<char>
    decreases s.len(),
{
    if s.len() == 0 {
        Seq::empty()
    } else {
        esc_char(s[0]) + esc(s.skip(1))
    }
}

/// The canonical text of a configuration value.
pub open spec fn encode_spec(c: ConfigV) -> Seq<char> {
    hdr_node() + (key_root() + (esc(c.node_root) + (qnl() + (key_config() + (esc(c.node_config) + (
    qnl() + (hdr_rocks() + (key_path() + (esc(c.rocks_path) + (qnl() + (hdr_rpc() + (key_address()
        + (esc(c.rpc_address) + (qnl() + (hdr_p2p() + (key_config() + (esc(c.p2p_config) + (qnl()
        + (hdr_tracing() + (key_path() + (esc(c.tracing_path) + qnl())))))))))))))))))))))
}

/// Strips `p` from the front of `s`, if it stands there.
pub open spec fn strip_pre(s: Seq<char>, p: Seq<char>) -> Option<Seq<char>> {
    if p.is_prefix_of(s) {
        Some(s.skip(p.len() as int))
    } else {
        None
    }
}

/// Consumes an optional section header.
pub open spec fn opt_hdr(s: Seq<char>, h: Seq<char>) -> Seq<char> {
    if h.is_prefix_of(s) {
        s.skip(h.len() as int)
    } else {
        s
    }
}

/// Reads a quoted value up to its closing `"`, undoing the escapes:
/// the value's characters, and the rest of the text beginning at the
/// closing quote. Nothing where the text ends inside the value or
/// behind a dangling backslash.
pub open spec fn scan_value(s: Seq<char>) -> Option<(Seq<char>, Seq<char>)>
    decreases s.len(),
{
    if s.len() == 0 {
        None
    } else if s[0] == '"' {
        Some((Seq::empty(), s))
    } else if s[0] == '\\' {
        if s.len() < 2 {
            None
        } else {
            match scan_value(s.skip(2)) {
                None => None,
                Some((v, r)) => Some((seq![s[1]] + v, r)),
            }
        }
    } else {
        match scan_value(s.skip(1)) {
            None => None,
            Some((v, r)) => Some((seq![s[0]] + v, r)),
        }
    }
}

/// The outcome of looking for one optional key line at the front of
/// the remaining text.
pub enum FieldStep {
    /// The key is not there; the text is untouched.
    Absent(Seq<char>),
    /// The key is there with this value; the rest follows its line.
    Present(Seq<char>, Seq<char>),
    /// The key is there but its line is malformed.
    Bad,
}

/// Consumes one optional `key = "value"` line.
pub open spec fn take_field(s: Seq<char>, key: Seq<char>) -> FieldStep {
    if key.is_prefix_of(s) {
        let t = s.skip(key.len() as int);
        match scan_value(t) {
            None => FieldStep::Bad,
            Some((v, u)) => {
                match strip_pre(u, qnl()) {
                    None => FieldStep::Bad,
                    Some(rest) => FieldStep::Present(v, rest),
                }
            },
        }
    } else {
        FieldStep::Absent(s)
    }
}

/// A found value, or the field's default where the key is absent.
pub open spec fn field_or(st: FieldStep, d: Seq<char>) -> Option<(Seq<char>, Seq<char>)> {
    match st {
        FieldStep::Absent(r) => Some((d, r)),
        FieldStep::Present(v, r) => Some((v, r)),
        FieldStep::Bad => None,
    }
}

/// The meaning of a config document: the configuration it denotes, or
/// nothing where a present key line is malformed or trailing text is
/// left over. Omitted sections and keys keep their defaults.
pub open spec fn decode_spec(s: Seq<char>) -> Option<ConfigV> {
    let s1 = opt_hdr(s, hdr_node());
    match field_or(take_field(s1, key_root()), default_node_root()) {
        None => None,
        Some((node_root, s2)) => match field_or(take_field(s2, key_config()), default_node_config()) {
            None => None,
            Some((node_config, s3)) => match field_or(
                take_field(opt_hdr(s3, hdr_rocks()), key_path()),
                default_rocks_path(),
            ) {
                None => None,
                Some((rocks_path, s4)) => match field_or(
                    take_field(opt_hdr(s4, hdr_rpc()), key_address()),
                    default_rpc_address(),
                ) {
                    None => None,
                    Some((rpc_address, s5)) => match field_or(
                        take_field(opt_hdr(s5, hdr_p2p()), key_config()),
                        default_p2p_config(),
                    ) {
                        None => None,
                        Some((p2p_config, s6)) => match field_or(
                            take_field(opt_hdr(s6, hdr_tracing()), key_path()),
                            default_tracing_path(),
                        ) {
                            None => None,
                            Some((tracing_path, s7)) => if s7.len() == 0 {
                                Some(
                                    ConfigV {
                                        node_root,
                                        node_config,
                                        rocks_path,
                                        rpc_address,
                                        p2p_config,
                                        tracing_path,
                                    },
                                )
                            } else {
                                None
                            },
                        },
                    },
                },
            },
        },
    }
}

proof fn lemma_add_assoc(a: Seq<char>, b: Seq<char>, c: Seq<char>)
    ensures
        (a + b) + c == a + (b + c),
{
    assert((a + b) + c =~= a + (b + c));
}

proof fn lemma_strip_concat(a: Seq<char>, b: Seq<char>)
    ensures
        strip_pre(a + b, a) == Some(b),
        opt_hdr(a + b, a) == b,
{
    assert(a =~= (a + b).subrange(0, a.len() as int));
    assert((a + b).skip(a.len() as int) =~= b);
}

proof fn lemma_scan_esc(v: Seq<char>, w: Seq<char>)
    requires
        w.len() > 0,
        w[0] == '"',
    ensures
        scan_value(esc(v) + w) == Some((v, w)),
    decreases v.len(),
{
    let s = esc(v) + w;
    if v.len() == 0 {
        assert(s =~= w);
    } else {
        let c = v[0];
        lemma_scan_esc(v.skip(1), w);
        if c == '"' || c == '\\' {
            assert(esc_char(c).len() == 2);
            assert(s[0] == '\\');
            assert(s[1] == c);
            assert(s.skip(2) =~= esc(v.skip(1)) + w);
            assert(seq![s[1]] + v.skip(1) =~= v);
        } else {
            assert(s[0] == c);
            assert(s.skip(1) =~= esc(v.skip(1)) + w);
            assert(seq![s[0]] + v.skip(1) =~= v);
        }
    }
}

proof fn lemma_take_field_concat(key: Seq<char>, v: Seq<char>, rest: Seq<char>)
    ensures
        take_field(key + (esc(v) + (qnl() + rest)), key) == FieldStep::Present(v, rest),
{
    let t = esc(v) + (qnl() + rest);
    lemma_strip_concat(key, t);
    reveal_strlit("\"\n");
    assert(qnl().len() == 2);
    assert(qnl()[0] == '"');
    assert((qnl() + rest)[0] == '"');
    lemma_scan_esc(v, qnl() + rest);
    lemma_strip_concat(qnl(), rest);
}

/// Round-trip: decoding the canonical text of any configuration
/// yields that configuration again.
pub proof fn lemma_round_trip(c: ConfigV)
    ensures
        decode_spec(encode_spec(c)) == Some(c),
{
    let emp = Seq::<char>::empty();
    let t_tr = key_path() + (esc(c.tracing_path) + (qnl() + emp));
    let s_tr = hdr_tracing() + t_tr;
    let t_p2p = key_config() + (esc(c.p2p_config) + (qnl() + s_tr));
    let s_p2p = hdr_p2p() + t_p2p;
    let t_rpc = key_address() + (esc(c.rpc_address) + (qnl() + s_p2p));
    let s_rpc = hdr_rpc() + t_rpc;
    let t_rocks = key_path() + (esc(c.rocks_path) + (qnl() + s_rpc));
    let s_rocks = hdr_rocks() + t_rocks;
    let t_nc = key_config() + (esc(c.node_config) + (qnl() + s_rocks));
    let t_nr = key_root() + (esc(c.node_root) + (qnl() + t_nc));
    let e = hdr_node() + t_nr;
    assert(qnl() + emp =~= qnl());
    assert(encode_spec(c) == e);
    lemma_strip_concat(hdr_node(), t_nr);
    lemma_take_field_concat(key_root(), c.node_root, t_nc);
    lemma_take_field_concat(key_config(), c.node_config, s_rocks);
    lemma_strip_concat(hdr_rocks(), t_rocks);
    lemma_take_field_concat(key_path(), c.rocks_path, s_rpc);
    lemma_strip_concat(hdr_rpc(), t_rpc);
    lemma_take_field_concat(key_address(), c.rpc_address, s_p2p);
    lemma_strip_concat(hdr_p2p(), t_p2p);
    lemma_take_field_concat(key_config(), c.p2p_config, s_tr);
    lemma_strip_concat(hdr_tracing(), t_tr);
    lemma_take_field_concat(key_path(), c.tracing_path, emp);
    assert(decode_spec(e) == Some(c)) by {
        assert(decode_spec(e)->Some_0 =~= c);
    }
}

proof fn lemma_esc_snoc(a: Seq<char>, c: char)
    ensures
        esc(a.push(c)) == esc(a) + esc_char(c),
    decreases a.len(),
{
    if a.len() == 0 {
        assert(a.push(c)[0] == c);
        assert(a.push(c).skip(1) =~= Seq::<char>::empty());
        assert(esc(a.push(c).skip(1)) =~= Seq::<char>::empty());
        assert(esc(a) =~= Seq::<char>::empty());
        assert(esc_char(c) + Seq::<char>::empty() =~= esc_char(c));
        assert(Seq::<char>::empty() + esc_char(c) =~= esc_char(c));
    } else {
        assert(a.push(c)[0] == a[0]);
        assert(a.push(c).skip(1) =~= a.skip(1).push(c));
        lemma_esc_snoc(a.skip(1), c);
        lemma_add_assoc(esc_char(a[0]), esc(a.skip(1)), esc_char(c));
    }
}

/// Appends the escaped form of `v` to `out`.
fn append_escaped(out: &mut String, v: &str)
    ensures
        final(out)@ == old(out)@ + esc(v@),
{
    let ghost orig = out@;
    let n = v.unicode_len();
    let mut i: usize = 0;
    proof {
        assert(v@.take(0) =~= Seq::<char>::empty());
        assert(orig + esc(v@.take(0)) =~= orig);
    }
    while i < n
        invariant
            i <= n,
            n == v@.len(),
            out@ == orig + esc(v@.take(i as int)),
        decreases n - i,
    {
        let c = v.get_char(i);
        if c == '"' || c == '\\' {
            out.append("\\");
        }
        let piece = v.substring_char(i, i + 1);
        out.append(piece);
        proof {
            reveal_strlit("\\");
            assert(piece@ =~= seq![v@[i as int]]);
            if c == '"' || c == '\\' {
                assert("\\"@ + piece@ =~= esc_char(c));
                lemma_add_assoc(orig + esc(v@.take(i as int)), "\\"@, piece@);
            }
            lemma_esc_snoc(v@.take(i as int), c);
            assert(v@.take(i as int).push(c) =~= v@.take(i as int + 1));
            lemma_add_assoc(orig, esc(v@.take(i as int)), esc_char(c));
        }
        i = i + 1;
    }
    proof {
        assert(v@.take(n as int) =~= v@);
    }
}

/// Encodes a configuration as its canonical document text.
#[verifier::rlimit(100)]
pub fn encode_config(c: &RamdConfig) -> (r: String)
    ensures
        r@ == encode_spec(c@),
{
    let mut s = String::from_str("[node]\n");
    s.append("root_path = \"");
    append_escaped(&mut s, c.node.root_path.as_str());
    s.append("\"\n");
    s.append("config_path = \"");
    append_escaped(&mut s, c.node.config_path.as_str());
    s.append("\"\n");
    s.append("[rocks]\n");
    s.append("path = \"");
    append_escaped(&mut s, c.rocks.path.as_str());
    s.append("\"\n");
    s.append("[json_rpc]\n");
    s.append("address = \"");
    append_escaped(&mut s, c.json_rpc.address.as_str());
    s.append("\"\n");
    s.append("[p2p]\n");
    s.append("config_path = \"");
    append_escaped(&mut s, c.p2p.config_path.as_str());
    s.append("\"\n");
    s.append("[tracing]\n");
    s.append("path = \"");
    append_escaped(&mut s, c.tracing.path.as_str());
    s.append("\"\n");
    proof {
        let v = c@;
        let x22 = qnl();
        let x21 = esc(v.tracing_path) + x22;
        let x20 = key_path() + x21;
        let x19 = hdr_tracing() + x20;
        let x18 = qnl() + x19;
        let x17 = esc(v.p2p_config) + x18;
        let x16 = key_config() + x17;
        let x15 = hdr_p2p() + x16;
        let x14 = qnl() + x15;
        let x13 = esc(v.rpc_address) + x14;
        let x12 = key_address() + x13;
        let x11 = hdr_rpc() + x12;
        let x10 = qnl() + x11;
        let x9 = esc(v.rocks_path) + x10;
        let x8 = key_path() + x9;
        let x7 = hdr_rocks() + x8;
        let x6 = qnl() + x7;
        let x5 = esc(v.node_config) + x6;
        let x4 = key_config() + x5;
        let x3 = qnl() + x4;
        let x2 = esc(v.node_root) + x3;
        let x1 = key_root() + x2;
        let x0 = hdr_node() + x1;
        assert(encode_spec(v) == x0);
        let l0 = hdr_node();
        let l1 = l0 + key_root();
        let l2 = l1 + esc(v.node_root);
        let l3 = l2 + qnl();
        let l4 = l3 + key_config();
        let l5 = l4 + esc(v.node_config);
        let l6 = l5 + qnl();
        let l7 = l6 + hdr_rocks();
        let l8 = l7 + key_path();
        let l9 = l8 + esc(v.rocks_path);
        let l10 = l9 + qnl();
        let l11 = l10 + hdr_rpc();
        let l12 = l11 + key_address();
        let l13 = l12 + esc(v.rpc_address);
        let l14 = l13 + qnl();
        let l15 = l14 + hdr_p2p();
        let l16 = l15 + key_config();
        let l17 = l16 + esc(v.p2p_config);
        let l18 = l17 + qnl();
        let l19 = l18 + hdr_tracing();
        let l20 = l19 + key_path();
        let l21 = l20 + esc(v.tracing_path);
        let l22 = l21 + qnl();
        assert(s@ == l22);
        lemma_add_assoc(l0, key_root(), x2);
        lemma_add_assoc(l1, esc(v.node_root), x3);
        lemma_add_assoc(l2, qnl(), x4);
        lemma_add_assoc(l3, key_config(), x5);
        lemma_add_assoc(l4, esc(v.node_config), x6);
        lemma_add_assoc(l5, qnl(), x7);
        lemma_add_assoc(l6, hdr_rocks(), x8);
        lemma_add_assoc(l7, key_path(), x9);
        lemma_add_assoc(l8, esc(v.rocks_path), x10);
        lemma_add_assoc(l9, qnl(), x11);
        lemma_add_assoc(l10, hdr_rpc(), x12);
        lemma_add_assoc(l11, key_address(), x13);
        lemma_add_assoc(l12, esc(v.rpc_address), x14);
        lemma_add_assoc(l13, qnl(), x15);
        lemma_add_assoc(l14, hdr_p2p(), x16);
        lemma_add_assoc(l15, key_config(), x17);
        lemma_add_assoc(l16, esc(v.p2p_config), x18);
        lemma_add_assoc(l17, qnl(), x19);
        lemma_add_assoc(l18, hdr_tracing(), x20);
        lemma_add_assoc(l19, key_path(), x21);
        lemma_add_assoc(l20, esc(v.tracing_path), x22);
        assert(s@ == encode_spec(v));
    }
    s
}

/// Compares the text at `i` against `p`, and reports where the match
/// ends.
fn try_strip(s: &str, i: usize, p: &str) -> (r: Option<usize>)
    requires
        i <= s@.len(),
    ensures
        match r {
            Some(j) => i + p@.len() == j && j <= s@.len() && strip_pre(s@.skip(i as int), p@)
                == Some(s@.skip(j as int)),
            None => strip_pre(s@.skip(i as int), p@) is None,
        },
{
    let n = s.unicode_len();
    let m = p.unicode_len();
    if m > n - i {
        proof {
            assert(!p@.is_prefix_of(s@.skip(i as int)));
        }
        return None;
    }
    let mut k: usize = 0;
    while k < m
        invariant
            k <= m,
            m == p@.len(),
            i + m <= n,
            n == s@.len(),
            forall|t: int| 0 <= t < k ==> s@[i + t] == p@[t],
        decreases m - k,
    {
        if s.get_char(i + k) != p.get_char(k) {
            proof {
                assert(!p@.is_prefix_of(s@.skip(i as int))) by {
                    if p@.is_prefix_of(s@.skip(i as int)) {
                        assert(p@[k as int] == s@.skip(i as int).subrange(0, p@.len() as int)[
                            k as int
                        ]);
                    }
                }
            }
            return None;
        }
        k = k + 1;
    }
    proof {
        assert(p@ =~= s@.skip(i as int).subrange(0, p@.len() as int));
        assert(s@.skip(i as int).skip(p@.len() as int) =~= s@.skip((i + m) as int));
    }
    Some(i + m)
}

/// Consumes an optional section header at `i`.
fn try_hdr(s: &str, i: usize, h: &str) -> (j: usize)
    requires
        i <= s@.len(),
    ensures
        j <= s@.len(),
        s@.skip(j as int) == opt_hdr(s@.skip(i as int), h@),
{
    match try_strip(s, i, h) {
        None => i,
        Some(j) => j,
    }
}

/// Finds the next `"` at or after `i`.
/// The relation the value reader maintains: with `acc` already read,
/// scanning the rest completes the scan of the original text.
spec fn scan_rel(orig: Seq<char>, acc: Seq<char>, rest: Seq<char>) -> bool {
    match scan_value(rest) {
        None => scan_value(orig) is None,
        Some((v, r)) => scan_value(orig) == Some((acc + v, r)),
    }
}

/// Reads the quoted value at `i`, undoing the escapes: the value's
/// characters and the position of its closing quote.
fn read_value(s: &str, i: usize) -> (r: Option<(String, usize)>)
    requires
        i <= s@.len(),
    ensures
        match r {
            Some((v, q)) => i <= q < s@.len() && scan_value(s@.skip(i as int)) == Some(
                (v@, s@.skip(q as int)),
            ),
            None => scan_value(s@.skip(i as int)) is None,
        },
{
    let n = s.unicode_len();
    let mut out = String::new();
    let mut k: usize = i;
    proof {
        match scan_value(s@.skip(i as int)) {
            Some((v, r)) => {
                assert(Seq::<char>::empty() + v =~= v);
            },
            None => {},
        }
    }
    while k < n
        invariant
            i <= k <= n,
            n == s@.len(),
            scan_rel(s@.skip(i as int), out@, s@.skip(k as int)),
        decreases n - k,
    {
        let c = s.get_char(k);
        proof {
            assert(s@.skip(k as int)[0] == s@[k as int]);
        }
        if c == '"' {
            proof {
                assert(out@ + Seq::<char>::empty() =~= out@);
            }
            return Some((out, k));
        }
        if c == '\\' {
            if k + 1 == n {
                proof {
                    assert(s@.skip(k as int).len() < 2);
                }
                return None;
            }
            let d = s.substring_char(k + 1, k + 2);
            let ghost acc = out@;
            out.append(d);
            proof {
                let rest = s@.skip(k as int);
                assert(rest[1] == s@[k as int + 1]);
                assert(rest.skip(2) =~= s@.skip(k as int + 2));
                assert(d@ =~= seq![rest[1]]);
                match scan_value(s@.skip(k as int + 2)) {
                    Some((v, r)) => {
                        lemma_add_assoc(acc, seq![rest[1]], v);
                    },
                    None => {},
                }
            }
            k = k + 2;
        } else {
            let d = s.substring_char(k, k + 1);
            let ghost acc = out@;
            out.append(d);
            proof {
                let rest = s@.skip(k as int);
                assert(rest.skip(1) =~= s@.skip(k as int + 1));
                assert(d@ =~= seq![rest[0]]);
                match scan_value(s@.skip(k as int + 1)) {
                    Some((v, r)) => {
                        lemma_add_assoc(acc, seq![rest[0]], v);
                    },
                    None => {},
                }
            }
            k = k + 1;
        }
    }
    proof {
        assert(s@.skip(n as int).len() == 0);
    }
    None
}

/// The outcome of reading one optional key line of the document.
enum FieldRead {
    /// The key is not there; reading continues at the same place.
    Absent(usize),
    /// The key's value, and where its line ends.
    Present(String, usize),
    /// The key is there but its line is malformed.
    Bad,
}

/// Reads one optional `key = "value"` line at `i`.
fn read_field(s: &str, i: usize, key: &str) -> (r: FieldRead)
    requires
        i <= s@.len(),
    ensures
        match r {
            FieldRead::Absent(j) => j == i && take_field(s@.skip(i as int), key@) == FieldStep::Absent(
                s@.skip(i as int),
            ),
            FieldRead::Present(v, j) => j <= s@.len() && take_field(s@.skip(i as int), key@)
                == FieldStep::Present(v@, s@.skip(j as int)),
            FieldRead::Bad => take_field(s@.skip(i as int), key@) is Bad,
        },
{
    match try_strip(s, i, key) {
        None => FieldRead::Absent(i),
        Some(j) => {
            match read_value(s, j) {
                None => FieldRead::Bad,
                Some((v, q)) => {
                    match try_strip(s, q, "\"\n") {
                        None => FieldRead::Bad,
                        Some(k2) => FieldRead::Present(v, k2),
                    }
                },
            }
        },
    }
}

/// Decodes a config document. Returns the configuration the document
/// denotes, or `ConfigParseError` exactly where the document has no
/// meaning under `decode_spec`.
#[verifier::rlimit(100)]
pub fn decode_config(s: &str) -> (r: Result<RamdConfig, ConfigError>)
    ensures
        match decode_spec(s@) {
            Some(c) => r matches Ok(cfg) && cfg@ == c,
            None => r == Err::<RamdConfig, ConfigError>(ConfigError::ConfigParseError),
        },
{
    proof {
        assert(s@.skip(0) =~= s@);
    }
    let i = try_hdr(s, 0, "[node]\n");
    let (node_root, i) = match read_field(s, i, "root_path = \"") {
        FieldRead::Absent(j) => (String::from_str(".ramd"), j),
        FieldRead::Present(v, j) => (v, j),
        FieldRead::Bad => {
            return Err(ConfigError::ConfigParseError);
        },
    };
    let (node_config, i) = match read_field(s, i, "config_path = \"") {
        FieldRead::Absent(j) => (String::from_str(".ramd/config/ramd.toml"), j),
        FieldRead::Present(v, j) => (v, j),
        FieldRead::Bad => {
            return Err(ConfigError::ConfigParseError);
        },
    };
    let i = try_hdr(s, i, "[rocks]\n");
    let (rocks_path, i) = match read_field(s, i, "path = \"") {
        FieldRead::Absent(j) => (String::from_str("db"), j),
        FieldRead::Present(v, j) => (v, j),
        FieldRead::Bad => {
            return Err(ConfigError::ConfigParseError);
        },
    };
    let i = try_hdr(s, i, "[json_rpc]\n");
    let (rpc_address, i) = match read_field(s, i, "address = \"") {
        FieldRead::Absent(j) => (String::from_str("127.0.0.1:8545"), j),
        FieldRead::Present(v, j) => (v, j),
        FieldRead::Bad => {
            return Err(ConfigError::ConfigParseError);
        },
    };
    let i = try_hdr(s, i, "[p2p]\n");
    let (p2p_config, i) = match read_field(s, i, "config_path = \"") {
        FieldRead::Absent(j) => (String::from_str(".ramd/p2p"), j),
        FieldRead::Present(v, j) => (v, j),
        FieldRead::Bad => {
            return Err(ConfigError::ConfigParseError);
        },
    };
    let i = try_hdr(s, i, "[tracing]\n");
    let (tracing_path, i) = match read_field(s, i, "path = \"") {
        FieldRead::Absent(j) => (String::from_str("logs"), j),
        FieldRead::Present(v, j) => (v, j),
        FieldRead::Bad => {
            return Err(ConfigError::ConfigParseError);
        },
    };
    if i != s.unicode_len() {
        return Err(ConfigError::ConfigParseError);
    }
    let cfg = RamdConfig {
        node: NodeConfig { root_path: node_root, config_path: node_config },
        rocks: RocksConfig { path: rocks_path },
        json_rpc: JsonRpcServerConfig { address: rpc_address },
        p2p: P2pConfig { config_path: p2p_config },
        tracing: TracingConfig { path: tracing_path },
    };
    proof {
        assert(s@.skip(i as int).len() == 0);
        assert(cfg@ =~= decode_spec(s@)->Some_0);
    }
    Ok(cfg)
}

} // verus!
