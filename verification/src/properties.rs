//! The server.properties key-value file: parsing it into ordered
//! pairs, reading the controlled settings out of it with their
//! defaults, and writing updated settings back.

use vstd::prelude::*;
use crate::text::{
    dec_str, lines_of, parse_u32, parse_u32_spec, split_lines, split_once_char, split_once_spec,
    str_eq, str_trim, trim_spec, u64_to_string,
};

verus! {

/// The key-value pair one line contributes: nothing for blank lines
/// and comments, otherwise the trimmed line split at its first `=`.
pub open spec fn kv_of_line(line: Seq<char>) -> Option<(Seq<char>, Seq<char>)> {
    let t = trim_spec(line);
    if t.len() == 0 {
        None
    } else if t[0] == '#' {
        None
    } else {
        split_once_spec(t, '=')
    }
}

/// The pairs a sequence of lines contributes, in line order.
pub open spec fn kv_pairs_of(ls: Seq<Seq<char>>) -> Seq<(Seq<char>, Seq<char>)>
    decreases ls.len(),
{
    if ls.len() == 0 {
        Seq::empty()
    } else {
        let rest = kv_pairs_of(ls.drop_last());
        match kv_of_line(ls.last()) {
            None => rest,
            Some(kv) => rest.push(kv),
        }
    }
}

/// The pairs a whole properties file contributes.
pub open spec fn props_pairs(content: Seq<char>) -> Seq<(Seq<char>, Seq<char>)> {
    kv_pairs_of(lines_of(content))
}

/// The character sequences of a vector of string pairs.
pub open spec fn pairs_view(ps: Seq<(String, String)>) -> Seq<(Seq<char>, Seq<char>)> {
    ps.map_values(|p: (String, String)| (p.0@, p.1@))
}

fn line_kv(line: &str) -> (r: Option<(String, String)>)
    ensures
        r is Some <==> kv_of_line(line@) is Some,
        r matches Some(p) ==> kv_of_line(line@) == Some((p.0@, p.1@)),
{
    let t = str_trim(line);
    let ts = t.as_str();
    if ts.unicode_len() == 0 {
        return None;
    }
    if ts.get_char(0) == '#' {
        return None;
    }
    split_once_char(ts, '=')
}

/// Parses a properties file's text into its key-value pairs, in line
/// order: blank lines and `#` comments are skipped, every other line
/// is trimmed and split at its first `=` (lines without one are
/// skipped too).
pub fn map_server_properties(content: &str) -> (r: Vec<(String, String)>)
    ensures
        pairs_view(r@) == props_pairs(content@),
{
    let lines = split_lines(content);
    let ghost ls = lines_of(content@);
    let mut out: Vec<(String, String)> = Vec::new();
    let mut i: usize = 0;
    while i < lines.len()
        invariant
            i <= lines@.len(),
            lines@.len() == ls.len(),
            forall|k: int| 0 <= k < ls.len() ==> (#[trigger] lines@[k])@ == ls[k],
            pairs_view(out@) == kv_pairs_of(ls.take(i as int)),
        decreases lines@.len() - i,
    {
        proof {
            assert(ls.take(i + 1).drop_last() =~= ls.take(i as int));
            assert(ls.take(i + 1).last() == ls[i as int]);
        }
        match line_kv(lines[i].as_str()) {
            None => {},
            Some(kv) => {
                out.push(kv);
            },
        }
        proof {
            assert(pairs_view(out@) =~= kv_pairs_of(ls.take(i + 1)));
        }
        i = i + 1;
    }
    proof {
        assert(ls.take(ls.len() as int) =~= ls);
    }
    out
}

/// The value of the last pair with the given key; properties files
/// are read with later duplicates overriding earlier ones.
pub open spec fn lookup_pair(ps: Seq<(Seq<char>, Seq<char>)>, k: Seq<char>) -> Option<Seq<char>>
    decreases ps.len(),
{
    if ps.len() == 0 {
        None
    } else if ps.last().0 == k {
        Some(ps.last().1)
    } else {
        lookup_pair(ps.drop_last(), k)
    }
}

fn get_prop(pairs: &Vec<(String, String)>, key: &str) -> (r: Option<String>)
    ensures
        r is Some <==> lookup_pair(pairs_view(pairs@), key@) is Some,
        r matches Some(v) ==> lookup_pair(pairs_view(pairs@), key@) == Some(v@),
{
    let ghost ps = pairs_view(pairs@);
    let mut i: usize = pairs.len();
    proof {
        assert(ps.take(i as int) =~= ps);
    }
    while i > 0
        invariant
            i <= pairs@.len(),
            ps == pairs_view(pairs@),
            ps.len() == pairs@.len(),
            lookup_pair(ps, key@) == lookup_pair(ps.take(i as int), key@),
        decreases i,
    {
        proof {
            assert(ps.take(i as int).last() == ps[i - 1]);
            assert(ps.take(i as int).drop_last() =~= ps.take(i - 1));
        }
        if str_eq(pairs[i - 1].0.as_str(), key) {
            return Some(pairs[i - 1].1.clone());
        }
        i = i - 1;
    }
    proof {
        assert(ps.take(0) =~= Seq::<(Seq<char>, Seq<char>)>::empty());
    }
    None
}

/// A string value with a default for an absent key.
pub open spec fn prop_str(ps: Seq<(Seq<char>, Seq<char>)>, k: Seq<char>, d: Seq<char>) -> Seq<
    char,
> {
    match lookup_pair(ps, k) {
        Some(v) => v,
        None => d,
    }
}

/// A boolean read as equality with `true`, with a default for an
/// absent key.
pub open spec fn prop_flag(ps: Seq<(Seq<char>, Seq<char>)>, k: Seq<char>, d: bool) -> bool {
    match lookup_pair(ps, k) {
        Some(v) => v == "true"@,
        None => d,
    }
}

/// A number, with a default for an absent key or an unparsable value.
pub open spec fn prop_u32(ps: Seq<(Seq<char>, Seq<char>)>, k: Seq<char>, d: u32) -> u32 {
    match lookup_pair(ps, k) {
        Some(v) => match parse_u32_spec(v) {
            Some(n) => n,
            None => d,
        },
        None => d,
    }
}

/// A port number, with a default for an absent key or a value that is
/// unparsable or out of range.
pub open spec fn prop_u16(ps: Seq<(Seq<char>, Seq<char>)>, k: Seq<char>, d: u16) -> u16 {
    match lookup_pair(ps, k) {
        Some(v) => match parse_u32_spec(v) {
            Some(n) => if n <= 65535 {
                n as u16
            } else {
                d
            },
            None => d,
        },
        None => d,
    }
}

fn get_prop_str(pairs: &Vec<(String, String)>, key: &str, default: &str) -> (r: String)
    ensures
        r@ == prop_str(pairs_view(pairs@), key@, default@),
{
    match get_prop(pairs, key) {
        Some(v) => v,
        None => String::from_str(default),
    }
}

fn get_prop_flag(pairs: &Vec<(String, String)>, key: &str, default: bool) -> (r: bool)
    ensures
        r == prop_flag(pairs_view(pairs@), key@, default),
{
    match get_prop(pairs, key) {
        Some(v) => str_eq(v.as_str(), "true"),
        None => default,
    }
}

fn get_prop_u32(pairs: &Vec<(String, String)>, key: &str, default: u32) -> (r: u32)
    ensures
        r == prop_u32(pairs_view(pairs@), key@, default),
{
    match get_prop(pairs, key) {
        Some(v) => match parse_u32(v.as_str()) {
            Some(n) => n,
            None => default,
        },
        None => default,
    }
}

fn get_prop_u16(pairs: &Vec<(String, String)>, key: &str, default: u16) -> (r: u16)
    ensures
        r == prop_u16(pairs_view(pairs@), key@, default),
{
    match get_prop(pairs, key) {
        Some(v) => match parse_u32(v.as_str()) {
            Some(n) => if n <= 65535 {
                n as u16
            } else {
                default
            },
            None => default,
        },
        None => default,
    }
}

/// The controlled settings of a server's properties file.
#[derive(Debug, Clone)]
pub struct ServerProperties {
    pub motd: String,
    pub online_mode: bool,
    pub max_players: u32,
    pub difficulty: String,
    pub gamemode: String,
    pub pvp: bool,
    pub spawn_protection: u32,
    pub view_distance: u32,
    pub simulation_distance: u32,
    pub server_port: u16,
}

/// Reads the controlled settings out of a properties file's text,
/// with the stock defaults for anything absent or unparsable; later
/// duplicate keys override earlier ones.
pub fn read_server_properties(content: &str) -> (r: ServerProperties)
    ensures
        ({
            let ps = props_pairs(content@);
            &&& r.motd@ == prop_str(ps, "motd"@, Seq::<char>::empty())
            &&& r.online_mode == prop_flag(ps, "online-mode"@, true)
            &&& r.max_players == prop_u32(ps, "max-players"@, 20)
            &&& r.difficulty@ == prop_str(ps, "difficulty"@, "easy"@)
            &&& r.gamemode@ == prop_str(ps, "gamemode"@, "survival"@)
            &&& r.pvp == prop_flag(ps, "pvp"@, true)
            &&& r.spawn_protection == prop_u32(ps, "spawn-protection"@, 16)
            &&& r.view_distance == prop_u32(ps, "view-distance"@, 10)
            &&& r.simulation_distance == prop_u32(ps, "simulation-distance"@, 10)
            &&& r.server_port == prop_u16(ps, "server-port"@, 25565)
        }),
{
    let pairs = map_server_properties(content);
    proof {
        reveal_strlit("");
        assert(""@ =~= Seq::<char>::empty());
    }
    ServerProperties {
        motd: get_prop_str(&pairs, "motd", ""),
        online_mode: get_prop_flag(&pairs, "online-mode", true),
        max_players: get_prop_u32(&pairs, "max-players", 20),
        difficulty: get_prop_str(&pairs, "difficulty", "easy"),
        gamemode: get_prop_str(&pairs, "gamemode", "survival"),
        pvp: get_prop_flag(&pairs, "pvp", true),
        spawn_protection: get_prop_u32(&pairs, "spawn-protection", 16),
        view_distance: get_prop_u32(&pairs, "view-distance", 10),
        simulation_distance: get_prop_u32(&pairs, "simulation-distance", 10),
        server_port: get_prop_u16(&pairs, "server-port", 25565),
    }
}

/// The pairs without any occurrence of a key, in their original order.
pub open spec fn without_key(ps: Seq<(Seq<char>, Seq<char>)>, k: Seq<char>) -> Seq<
    (Seq<char>, Seq<char>),
>
    decreases ps.len(),
{
    if ps.len() == 0 {
        ps
    } else {
        let rest = without_key(ps.drop_last(), k);
        if ps.last().0 == k {
            rest
        } else {
            rest.push(ps.last())
        }
    }
}

/// Setting a key: every old occurrence removed, the new pair appended.
pub open spec fn upsert(
    ps: Seq<(Seq<char>, Seq<char>)>,
    k: Seq<char>,
    v: Seq<char>,
) -> Seq<(Seq<char>, Seq<char>)> {
    without_key(ps, k).push((k, v))
}

fn upsert_pair(pairs: Vec<(String, String)>, key: &str, value: String) -> (r: Vec<
    (String, String),
>)
    ensures
        pairs_view(r@) == upsert(pairs_view(pairs@), key@, value@),
{
    let ghost ps = pairs_view(pairs@);
    let mut out: Vec<(String, String)> = Vec::new();
    let mut i: usize = 0;
    while i < pairs.len()
        invariant
            i <= pairs@.len(),
            ps == pairs_view(pairs@),
            ps.len() == pairs@.len(),
            pairs_view(out@) == without_key(ps.take(i as int), key@),
        decreases pairs@.len() - i,
    {
        proof {
            assert(ps.take(i + 1).drop_last() =~= ps.take(i as int));
            assert(ps.take(i + 1).last() == ps[i as int]);
        }
        if !str_eq(pairs[i].0.as_str(), key) {
            out.push((pairs[i].0.clone(), pairs[i].1.clone()));
        }
        proof {
            assert(pairs_view(out@) =~= without_key(ps.take(i + 1), key@));
        }
        i = i + 1;
    }
    out.push((String::from_str(key), value));
    proof {
        assert(ps.take(ps.len() as int) =~= ps);
        assert(pairs_view(out@) =~= upsert(ps, key@, value@));
    }
    out
}

/// The serialized text of the pairs: one `key=value` line each, in
/// order.
pub open spec fn props_text_of(ps: Seq<(Seq<char>, Seq<char>)>) -> Seq<char>
    decreases ps.len(),
{
    if ps.len() == 0 {
        Seq::empty()
    } else {
        props_text_of(ps.drop_last()) + ps.last().0 + "="@ + ps.last().1 + "\n"@
    }
}

/// The rendering of a boolean setting.
pub open spec fn bool_str(b: bool) -> Seq<char> {
    if b {
        "true"@
    } else {
        "false"@
    }
}

fn bool_string(b: bool) -> (r: String)
    ensures
        r@ == bool_str(b),
{
    if b {
        String::from_str("true")
    } else {
        String::from_str("false")
    }
}

/// A properties file's pairs after writing the controlled settings
/// into them, each in its fixed position at the end.
pub open spec fn apply_props(
    ps: Seq<(Seq<char>, Seq<char>)>,
    p: ServerProperties,
) -> Seq<(Seq<char>, Seq<char>)> {
    let s1 = upsert(ps, "motd"@, p.motd@);
    let s2 = upsert(s1, "online-mode"@, bool_str(p.online_mode));
    let s3 = upsert(s2, "max-players"@, dec_str(p.max_players as nat));
    let s4 = upsert(s3, "difficulty"@, p.difficulty@);
    let s5 = upsert(s4, "gamemode"@, p.gamemode@);
    let s6 = upsert(s5, "pvp"@, bool_str(p.pvp));
    let s7 = upsert(s6, "spawn-protection"@, dec_str(p.spawn_protection as nat));
    let s8 = upsert(s7, "view-distance"@, dec_str(p.view_distance as nat));
    let s9 = upsert(s8, "simulation-distance"@, dec_str(p.simulation_distance as nat));
    upsert(s9, "server-port"@, dec_str(p.server_port as nat))
}

/// Rewrites a properties file's text: every key it already had is
/// kept (unknown keys untouched, in their order), the controlled
/// settings are written with the given values, and a generator
/// comment heads the file.
pub fn update_server_properties(content: &str, props: &ServerProperties) -> (r: String)
    ensures
        r@ == "# Generated / Updated by Cubely\n"@ + props_text_of(
            apply_props(props_pairs(content@), *props),
        ),
{
    let mut pairs = map_server_properties(content);
    pairs = upsert_pair(pairs, "motd", props.motd.clone());
    pairs = upsert_pair(pairs, "online-mode", bool_string(props.online_mode));
    pairs = upsert_pair(pairs, "max-players", u64_to_string(props.max_players as u64));
    pairs = upsert_pair(pairs, "difficulty", props.difficulty.clone());
    pairs = upsert_pair(pairs, "gamemode", props.gamemode.clone());
    pairs = upsert_pair(pairs, "pvp", bool_string(props.pvp));
    pairs = upsert_pair(pairs, "spawn-protection", u64_to_string(props.spawn_protection as u64));
    pairs = upsert_pair(pairs, "view-distance", u64_to_string(props.view_distance as u64));
    pairs = upsert_pair(
        pairs,
        "simulation-distance",
        u64_to_string(props.simulation_distance as u64),
    );
    pairs = upsert_pair(pairs, "server-port", u64_to_string(props.server_port as u64));
    let ghost ps = pairs_view(pairs@);
    let mut out = String::from_str("# Generated / Updated by Cubely\n");
    let mut i: usize = 0;
    while i < pairs.len()
        invariant
            i <= pairs@.len(),
            ps == pairs_view(pairs@),
            ps.len() == pairs@.len(),
            out@ == "# Generated / Updated by Cubely\n"@ + props_text_of(ps.take(i as int)),
        decreases pairs@.len() - i,
    {
        proof {
            assert(ps.take(i + 1).drop_last() =~= ps.take(i as int));
            assert(ps.take(i + 1).last() == ps[i as int]);
        }
        out.append(pairs[i].0.as_str());
        out.append("=");
        out.append(pairs[i].1.as_str());
        out.append("\n");
        i = i + 1;
    }
    proof {
        assert(ps.take(ps.len() as int) =~= ps);
    }
    out
}

} // verus!
