//! Where the daemon looks for its configuration and for sound files.
use vstd::prelude::*;

use crate::notification::NotificationHints;

verus! {

/// `base` joined with `part` as `PathBuf::push` does on Unix: an absolute
/// `part` replaces `base`; otherwise a `/` goes between them unless `base`
/// is empty or already ends in one.
pub open spec fn path_join(base: Seq<char>, part: Seq<char>) -> Seq<char> {
    if part.len() > 0 && part[0] == '/' {
        part
    } else if base.len() == 0 || base.last() == '/' {
        base + part
    } else {
        base + seq!['/'] + part
    }
}

pub fn join_path(base: &str, part: &str) -> (r: String)
    ensures
        r@ == path_join(base@, part@),
{
    let plen = part.unicode_len();
    if plen > 0 && part.get_char(0) == '/' {
        return part.to_owned();
    }
    let blen = base.unicode_len();
    let mut out = base.to_owned();
    if blen > 0 && base.get_char(blen - 1) != '/' {
        out.append("/");
        proof {
            reveal_strlit("/");
        }
    }
    out.append(part);
    out
}

/// The configuration directory: `$XDG_CONFIG_HOME/notiser`, where an unset
/// `XDG_CONFIG_HOME` stands for `$HOME/.config` and an unset `HOME` for `.`.
pub open spec fn config_dir_for(xdg_config_home: Option<Seq<char>>, home: Option<Seq<char>>) -> Seq<char> {
    let home_dir = match home {
        Some(h) => h,
        None => "."@,
    };
    let base = match xdg_config_home {
        Some(x) => x,
        None => home_dir + "/.config"@,
    };
    path_join(base, "notiser"@)
}

pub fn config_dir(xdg_config_home: Option<&str>, home: Option<&str>) -> (r: String)
    ensures
        r@ == config_dir_for(
            match xdg_config_home {
                Some(x) => Some(x@),
                None => None,
            },
            match home {
                Some(h) => Some(h@),
                None => None,
            },
        ),
{
    let base = match xdg_config_home {
        Some(x) => x.to_owned(),
        None => {
            let mut b = match home {
                Some(h) => h.to_owned(),
                None => String::from_str("."),
            };
            b.append("/.config");
            b
        },
    };
    join_path(base.as_str(), "notiser")
}

/// The configuration file: `init.lua` in the configuration directory.
pub fn config_path(xdg_config_home: Option<&str>, home: Option<&str>) -> (r: String)
    ensures
        r@ == path_join(
            config_dir_for(
                match xdg_config_home {
                    Some(x) => Some(x@),
                    None => None,
                },
                match home {
                    Some(h) => Some(h@),
                    None => None,
                },
            ),
            "init.lua"@,
        ),
{
    let dir = config_dir(xdg_config_home, home);
    join_path(dir.as_str(), "init.lua")
}

/// A string cut at every `:` (as `str::split(':')` does): `n` colons give
/// `n + 1` pieces, empty ones included.
pub open spec fn split_colons(s: Seq<char>) -> Seq<Seq<char>>
    decreases s.len(),
{
    if s.len() == 0 {
        seq![Seq::<char>::empty()]
    } else {
        let r = split_colons(s.drop_last());
        if s.last() == ':' {
            r.push(Seq::<char>::empty())
        } else {
            r.update(r.len() - 1, r.last().push(s.last()))
        }
    }
}

proof fn lemma_split_nonempty(s: Seq<char>)
    ensures
        split_colons(s).len() >= 1,
    decreases s.len(),
{
    if s.len() > 0 {
        lemma_split_nonempty(s.drop_last());
    }
}

pub fn split_on_colons(s: &str) -> (parts: Vec<String>)
    ensures
        parts@.map_values(|p: String| p@) == split_colons(s@),
{
    let chars = crate::text::chars_of(s);
    let n = chars.len();
    let mut done: Vec<String> = Vec::new();
    let mut current = String::new();
    let mut i: usize = 0;
    while i < n
        invariant
            n == chars@.len(),
            chars@ == s@,
            i <= n,
            done@.map_values(|p: String| p@).push(current@) == split_colons(s@.subrange(0, i as int)),
        decreases n - i,
    {
        let c = chars[i];
        let ghost prefix = s@.subrange(0, i as int);
        proof {
            lemma_split_nonempty(prefix);
            assert(s@.subrange(0, i + 1).drop_last() =~= prefix);
        }
        if c == ':' {
            let piece = current;
            done.push(piece);
            current = String::new();
            proof {
                assert(done@.map_values(|p: String| p@) =~= split_colons(prefix));
                assert(done@.map_values(|p: String| p@).push(current@) =~= split_colons(s@.subrange(0, i + 1)));
            }
        } else {
            push_char(&mut current, c);
            proof {
                assert(done@.map_values(|p: String| p@).push(current@) =~= split_colons(s@.subrange(0, i + 1)));
            }
        }
        i = i + 1;
    }
    proof {
        assert(s@.subrange(0, n as int) =~= s@);
    }
    done.push(current);
    done
}

/// Where a freedesktop sound theme keeps a sound: in the `stereo` directory
/// of the `freedesktop` theme under a data directory.
pub open spec fn sound_path(dir: Seq<char>, name: Seq<char>, ext: Seq<char>) -> Seq<char> {
    path_join(path_join(dir, "sounds/freedesktop/stereo"@), name + "."@ + ext)
}

/// The files that may hold the named sound, in the order they are tried:
/// for each data directory the `oga`, `ogg` and `wav` files.
pub open spec fn sound_candidates(dirs: Seq<Seq<char>>, name: Seq<char>) -> Seq<Seq<char>>
    decreases dirs.len(),
{
    if dirs.len() == 0 {
        Seq::empty()
    } else {
        sound_candidates(dirs.drop_last(), name) + seq![
            sound_path(dirs.last(), name, "oga"@),
            sound_path(dirs.last(), name, "ogg"@),
            sound_path(dirs.last(), name, "wav"@),
        ]
    }
}

fn candidate(dir: &str, name: &str, ext: &str) -> (r: String)
    ensures
        r@ == sound_path(dir@, name@, ext@),
{
    let theme = join_path(dir, "sounds/freedesktop/stereo");
    let mut file = name.to_owned();
    file.append(".");
    file.append(ext);
    join_path(theme.as_str(), file.as_str())
}

/// The candidate files for a sound name, given the `XDG_DATA_DIRS` list
/// (colon-separated).
pub fn xdg_sound_candidates(data_dirs: &str, name: &str) -> (r: Vec<String>)
    ensures
        r@.map_values(|p: String| p@) == sound_candidates(split_colons(data_dirs@), name@),
{
    let dirs = split_on_colons(data_dirs);
    let ghost dv = dirs@.map_values(|p: String| p@);
    let mut out: Vec<String> = Vec::new();
    let n = dirs.len();
    let mut i: usize = 0;
    while i < n
        invariant
            n == dirs@.len(),
            i <= n,
            dv == dirs@.map_values(|p: String| p@),
            out@.map_values(|p: String| p@) == sound_candidates(dv.subrange(0, i as int), name@),
        decreases n - i,
    {
        let d = dirs[i].as_str();
        let a = candidate(d, name, "oga");
        let b = candidate(d, name, "ogg");
        let c = candidate(d, name, "wav");
        let ghost before = out@.map_values(|p: String| p@);
        out.push(a);
        out.push(b);
        out.push(c);
        proof {
            assert(dv.subrange(0, i + 1).drop_last() =~= dv.subrange(0, i as int));
            assert(out@.map_values(|p: String| p@) =~= before + seq![a@, b@, c@]);
        }
        i = i + 1;
    }
    proof {
        assert(dv.subrange(0, n as int) =~= dv);
    }
    out
}

/// The order in which sound files are considered for a notification, each
/// with whether it is taken only when the file exists: a `sound-file` hint
/// is taken as it is; otherwise the themed files for the `sound-name`
/// hint, then the urgency's configured sound as a path and then as a
/// themed name.
pub open spec fn sound_search(
    sound_file: Option<Seq<char>>,
    sound_name: Option<Seq<char>>,
    override_sound: Option<Seq<char>>,
    dirs: Seq<Seq<char>>,
) -> Seq<(Seq<char>, bool)> {
    match sound_file {
        Some(f) => seq![(f, false)],
        None => {
            let by_name = match sound_name {
                Some(n) => sound_candidates(dirs, n).map_values(|p: Seq<char>| (p, true)),
                None => Seq::empty(),
            };
            let by_urgency = match override_sound {
                Some(o) => seq![(o, true)] + sound_candidates(dirs, o).map_values(|p: Seq<char>| (p, true)),
                None => Seq::empty(),
            };
            by_name + by_urgency
        },
    }
}

fn probe_all(out: &mut Vec<(String, bool)>, paths: Vec<String>)
    ensures
        final(out)@.map_values(|e: (String, bool)| (e.0@, e.1)) == old(out)@.map_values(
            |e: (String, bool)| (e.0@, e.1),
        ) + paths@.map_values(|p: String| p@).map_values(|p: Seq<char>| (p, true)),
{
    let ghost start = out@.map_values(|e: (String, bool)| (e.0@, e.1));
    let ghost pv = paths@.map_values(|p: String| p@);
    let n = paths.len();
    let mut i: usize = 0;
    while i < n
        invariant
            n == pv.len(),
            i <= n,
            paths@.map_values(|p: String| p@) == pv,
            out@.map_values(|e: (String, bool)| (e.0@, e.1)) == start + pv.subrange(0, i as int).map_values(
                |p: Seq<char>| (p, true),
            ),
        decreases n - i,
    {
        let p = paths[i].clone();
        let ghost before = out@.map_values(|e: (String, bool)| (e.0@, e.1));
        out.push((p, true));
        proof {
            assert(pv.subrange(0, i + 1).map_values(|p: Seq<char>| (p, true)) =~= pv.subrange(0, i as int).map_values(
                |p: Seq<char>| (p, true),
            ).push((pv[i as int], true)));
            assert(out@.map_values(|e: (String, bool)| (e.0@, e.1)) =~= before.push((pv[i as int], true)));
        }
        i = i + 1;
    }
    proof {
        assert(pv.subrange(0, n as int) =~= pv);
    }
}

/// The sound files to consider for a notification whose urgency has the
/// configured sound `override_sound`; `data_dirs` is the `XDG_DATA_DIRS`
/// list.
pub fn sound_search_order(hints: &NotificationHints, override_sound: Option<&str>, data_dirs: &str) -> (r: Vec<(String, bool)>)
    ensures
        r@.map_values(|e: (String, bool)| (e.0@, e.1)) == sound_search(
            hints@.sound_file,
            hints@.sound_name,
            match override_sound {
                Some(o) => Some(o@),
                None => None,
            },
            split_colons(data_dirs@),
        ),
{
    let mut out: Vec<(String, bool)> = Vec::new();
    if let Some(f) = &hints.sound_file {
        out.push((f.clone(), false));
        proof {
            assert(out@.map_values(|e: (String, bool)| (e.0@, e.1)) =~= seq![(f@, false)]);
        }
        return out;
    }
    if let Some(n) = &hints.sound_name {
        probe_all(&mut out, xdg_sound_candidates(data_dirs, n.as_str()));
    }
    let ghost after_name = out@.map_values(|e: (String, bool)| (e.0@, e.1));
    if let Some(o) = override_sound {
        out.push((o.to_owned(), true));
        proof {
            assert(out@.map_values(|e: (String, bool)| (e.0@, e.1)) =~= after_name.push((o@, true)));
        }
        probe_all(&mut out, xdg_sound_candidates(data_dirs, o));
    }
    proof {
        let dirs = split_colons(data_dirs@);
        let by_name = match hints@.sound_name {
            Some(n) => sound_candidates(dirs, n).map_values(|p: Seq<char>| (p, true)),
            None => Seq::<(Seq<char>, bool)>::empty(),
        };
        assert(after_name =~= Seq::<(Seq<char>, bool)>::empty() + by_name);
        match override_sound {
            Some(o) => {
                assert(out@.map_values(|e: (String, bool)| (e.0@, e.1)) =~= by_name + (seq![(o@, true)]
                    + sound_candidates(dirs, o@).map_values(|p: Seq<char>| (p, true))));
            },
            None => {
                assert(out@.map_values(|e: (String, bool)| (e.0@, e.1)) =~= by_name + Seq::<(Seq<char>, bool)>::empty());
            },
        }
    }
    out
}

/// A sound is played only when the notification does not ask for silence
/// and the cooldown since the last sound (in milliseconds) has passed.
pub open spec fn sound_permitted(suppress_sound: bool, since_last_nanos: Option<u128>, cooldown_ms: u32) -> bool {
    !suppress_sound && match since_last_nanos {
        Some(t) => t >= cooldown_ms * 1000000,
        None => true,
    }
}

pub fn sound_allowed(suppress_sound: bool, since_last_nanos: Option<u128>, cooldown_ms: u32) -> (r: bool)
    ensures
        r == sound_permitted(suppress_sound, since_last_nanos, cooldown_ms),
{
    if suppress_sound {
        return false;
    }
    match since_last_nanos {
        Some(t) => t >= (cooldown_ms as u128) * 1000000,
        None => true,
    }
}

/// Calls `String::push`, which appends one character.
#[verifier::external_body]
fn push_char(s: &mut String, c: char)
    ensures
        final(s)@ == old(s)@.push(c),
{
    s.push(c);
}

} // verus!
