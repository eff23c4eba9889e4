//! Workspace paths: their normalized components, prefix tests between paths
//! and the final file name.
//!
//! A path's components follow the normalization that `Path::components`
//! documents: repeated separators are ignored, `.` parts are dropped except
//! for a leading `.` in a relative path, and a trailing separator is ignored.
//! On Windows both `/` and `\` separate parts and a leading drive such as
//! `C:` is a prefix component (compared without regard to the letter's case);
//! UNC and verbatim prefixes are read as ordinary parts.
//!
//! Components are represented as character sequences: the root is `/`, a
//! leading current-directory marker is `.`, a drive prefix is its upper-case
//! letter followed by `:`, and every other component is its own text. No
//! ordinary component can coincide with the root, the `.` marker, or (at the
//! first position) a drive prefix, so comparing these sequences compares the
//! components.

use crate::text::{ascii_upper, chars_of, owned, push_char, views};
use vstd::prelude::*;

verus! {

/// The platform whose path syntax applies.
#[derive(Clone, Copy, Debug, PartialEq, Eq, Structural)]
pub enum Platform {
    Windows,
    Unix,
}

/// Whether `c` separates path parts on `platform`.
pub open spec fn is_separator(c: char, platform: Platform) -> bool {
    c == '/' || (platform == Platform::Windows && c == '\\')
}

fn is_separator_exec(c: char, platform: Platform) -> (r: bool)
    ensures
        r == is_separator(c, platform),
{
    c == '/' || (platform == Platform::Windows && c == '\\')
}

/// Whether `c` is an ASCII letter.
pub open spec fn is_ascii_letter(c: char) -> bool {
    ('a' <= c <= 'z') || ('A' <= c <= 'Z')
}

/// Whether `p` starts with a drive prefix such as `C:`.
pub open spec fn has_drive(p: Seq<char>, platform: Platform) -> bool {
    platform == Platform::Windows && p.len() >= 2 && is_ascii_letter(p[0]) && p[1] == ':'
}

/// Where the part of `p` after its prefix begins.
pub open spec fn prefix_len(p: Seq<char>, platform: Platform) -> int {
    if has_drive(p, platform) {
        2
    } else {
        0
    }
}

/// Whether `p` has a root directory (a separator right after its prefix).
pub open spec fn has_root(p: Seq<char>, platform: Platform) -> bool {
    let rest = p.skip(prefix_len(p, platform));
    rest.len() > 0 && is_separator(rest[0], platform)
}

/// Whether `p` starts with a `.` component that is kept.
pub open spec fn has_cur_dir(p: Seq<char>, platform: Platform) -> bool {
    let rest = p.skip(prefix_len(p, platform));
    !has_root(p, platform) && rest.len() > 0 && rest[0] == '.' && (rest.len() == 1
        || is_separator(rest[1], platform))
}

/// The components before the first ordinary one: drive, root, `.`.
pub open spec fn lead_components(p: Seq<char>, platform: Platform) -> Seq<Seq<char>> {
    (if has_drive(p, platform) {
        seq![seq![ascii_upper(p[0]), ':']]
    } else {
        Seq::<Seq<char>>::empty()
    }) + (if has_root(p, platform) {
        seq![seq!['/']]
    } else {
        Seq::<Seq<char>>::empty()
    }) + (if has_cur_dir(p, platform) {
        seq![seq!['.']]
    } else {
        Seq::<Seq<char>>::empty()
    })
}

/// `done` with the part `cur` added, unless `cur` is empty or `.`.
pub open spec fn close_part(done: Seq<Seq<char>>, cur: Seq<char>) -> Seq<Seq<char>> {
    if cur.len() == 0 || cur == seq!['.'] {
        done
    } else {
        done.push(cur)
    }
}

/// Reading `s` from the left: the ordinary parts finished so far, and the
/// part still being read.
pub open spec fn scan_parts(s: Seq<char>, platform: Platform) -> (Seq<Seq<char>>, Seq<char>)
    decreases s.len(),
{
    if s.len() == 0 {
        (Seq::empty(), Seq::empty())
    } else {
        let (done, cur) = scan_parts(s.drop_last(), platform);
        if is_separator(s.last(), platform) {
            (close_part(done, cur), Seq::empty())
        } else {
            (done, cur.push(s.last()))
        }
    }
}

/// The ordinary components of `s`: its parts between separators, without
/// empty and `.` parts.
pub open spec fn ordinary_parts(s: Seq<char>, platform: Platform) -> Seq<Seq<char>> {
    close_part(scan_parts(s, platform).0, scan_parts(s, platform).1)
}

/// The normalized components of the path `p`.
pub open spec fn components(p: Seq<char>, platform: Platform) -> Seq<Seq<char>> {
    lead_components(p, platform) + ordinary_parts(p.skip(prefix_len(p, platform)), platform)
}

/// `Path::starts_with` on normalized paths: the components of `base` are the
/// first components of `p`.
pub open spec fn path_starts_with(p: Seq<char>, base: Seq<char>, platform: Platform) -> bool {
    let c = components(p, platform);
    let b = components(base, platform);
    b.len() <= c.len() && c.take(b.len() as int) == b
}

/// Whether `path` lies outside `workspace`; every path does when there is no workspace.
pub open spec fn outside_workspace(
    path: Seq<char>,
    workspace: Option<Seq<char>>,
    platform: Platform,
) -> bool {
    match workspace {
        None => true,
        Some(w) => !path_starts_with(path, w, platform),
    }
}

/// `Path::file_name`: the last component of `p` when it is an ordinary name
/// other than `..`.
pub open spec fn file_name(p: Seq<char>, platform: Platform) -> Option<Seq<char>> {
    let parts = ordinary_parts(p.skip(prefix_len(p, platform)), platform);
    if parts.len() > 0 && parts.last() != seq!['.', '.'] {
        Some(parts.last())
    } else {
        None
    }
}

/// A path always starts with itself, so a path is inside a workspace that is
/// the same path.
pub proof fn lemma_path_inside_itself(p: Seq<char>, platform: Platform)
    ensures
        path_starts_with(p, p, platform),
        !outside_workspace(p, Some(p), platform),
{
    assert(components(p, platform).take(components(p, platform).len() as int) =~= components(
        p,
        platform,
    ));
}

/// A path starts with a base exactly when every component of the base, the
/// first one (drive prefix, root or `.`) included, equals the component at the
/// same position of the path.
pub proof fn lemma_starts_with_compares_every_component(
    p: Seq<char>,
    base: Seq<char>,
    platform: Platform,
)
    ensures
        path_starts_with(p, base, platform) <==> (components(base, platform).len() <= components(
            p,
            platform,
        ).len() && forall|i: int|
            0 <= i < components(base, platform).len() ==> #[trigger] components(p, platform)[i]
                == components(base, platform)[i]),
{
    let c = components(p, platform);
    let b = components(base, platform);
    if b.len() <= c.len() {
        if forall|i: int| 0 <= i < b.len() ==> #[trigger] c[i] == b[i] {
            assert(c.take(b.len() as int) =~= b);
        }
        if c.take(b.len() as int) == b {
            assert forall|i: int| 0 <= i < b.len() implies #[trigger] c[i] == b[i] by {
                assert(c.take(b.len() as int)[i] == c[i]);
            }
        }
    }
}

/// Two paths on different drives: neither starts with the other, so a path
/// on another drive is never inside the workspace.
pub proof fn lemma_other_drive_is_outside(p: Seq<char>, ws: Seq<char>, platform: Platform)
    requires
        has_drive(p, platform),
        has_drive(ws, platform),
        ascii_upper(p[0]) != ascii_upper(ws[0]),
    ensures
        !path_starts_with(p, ws, platform),
        outside_workspace(p, Some(ws), platform),
{
    lemma_starts_with_compares_every_component(p, ws, platform);
    assert(components(p, platform)[0] == seq![ascii_upper(p[0]), ':']);
    assert(components(ws, platform)[0] == seq![ascii_upper(ws[0]), ':']);
    assert(components(p, platform)[0][0] != components(ws, platform)[0][0]);
}

proof fn lemma_scan_name(s: Seq<char>, name: Seq<char>, platform: Platform)
    requires
        scan_parts(s, platform).1.len() == 0,
        forall|i: int| 0 <= i < name.len() ==> !is_separator(#[trigger] name[i], platform),
    ensures
        scan_parts(s + name, platform) == (scan_parts(s, platform).0, name),
    decreases name.len(),
{
    if name.len() == 0 {
        assert(s + name =~= s);
        assert(scan_parts(s, platform).1 =~= name);
    } else {
        let shorter = name.drop_last();
        lemma_scan_name(s, shorter, platform);
        assert((s + name).drop_last() =~= s + shorter);
        assert((s + name).last() == name.last());
        assert(shorter.push(name.last()) =~= name);
    }
}

/// A path followed by `/` and one more name starts with that path: whatever
/// lies directly in the workspace is inside it. (The name may be `..`, which
/// `Path::starts_with` also counts as a component of the longer path.)
pub proof fn lemma_child_is_inside(ws: Seq<char>, name: Seq<char>, platform: Platform)
    requires
        name.len() > 0,
        name != seq!['.'],
        forall|i: int| 0 <= i < name.len() ==> !is_separator(#[trigger] name[i], platform),
    ensures
        path_starts_with(ws + seq!['/'] + name, ws, platform),
{
    let p = ws + seq!['/'] + name;
    let pl = prefix_len(ws, platform);
    assert(prefix_len(p, platform) == pl) by {
        if ws.len() >= 2 {
            assert(p[0] == ws[0] && p[1] == ws[1]);
        } else if ws.len() == 1 {
            assert(p[1] == '/');
        } else {
            assert(p[0] == '/');
        }
    }
    let r = ws.skip(pl);
    let rp = p.skip(pl);
    assert(rp =~= r.push('/') + name);
    let d = scan_parts(r, platform).0;
    let c = scan_parts(r, platform).1;
    assert(r.push('/').drop_last() =~= r);
    assert(scan_parts(r.push('/'), platform) == (close_part(d, c), Seq::<char>::empty()));
    lemma_scan_name(r.push('/'), name, platform);
    assert(ordinary_parts(rp, platform) == close_part(d, c).push(name));
    assert(ordinary_parts(r, platform) == close_part(d, c));
    let cw = components(ws, platform);
    let cp = components(p, platform);
    if r.len() > 0 {
        assert(rp[0] == r[0]);
        if r.len() > 1 {
            assert(rp[1] == r[1]);
        } else {
            assert(rp[1] == '/');
        }
        assert(has_drive(p, platform) == has_drive(ws, platform));
        if has_drive(ws, platform) {
            assert(p[0] == ws[0]);
        }
        assert(lead_components(p, platform) == lead_components(ws, platform));
        assert(cp =~= cw.push(name));
        assert(cp.take(cw.len() as int) =~= cw);
    } else {
        assert(d.len() == 0 && c.len() == 0);
        assert(ordinary_parts(r, platform).len() == 0);
        assert(has_drive(p, platform) == has_drive(ws, platform));
        if has_drive(ws, platform) {
            assert(p[0] == ws[0]);
        }
        assert(cw =~= (if has_drive(ws, platform) {
            seq![seq![ascii_upper(ws[0]), ':']]
        } else {
            Seq::<Seq<char>>::empty()
        }));
        assert(has_root(p, platform));
        assert(cp.take(cw.len() as int) =~= cw);
    }
}

fn upper_char(c: char) -> (r: char)
    ensures
        r == ascii_upper(c),
{
    if 'a' <= c && c <= 'z' {
        ((c as u8) - 32) as char
    } else {
        c
    }
}

/// The lead components of `p` and the position where its prefix ends.
fn lead_of(p: &str, x: &Vec<char>, platform: Platform) -> (r: (Vec<String>, usize))
    requires
        x@ == p@,
    ensures
        views(r.0@) == lead_components(p@, platform),
        r.1 == prefix_len(p@, platform),
{
    let mut out: Vec<String> = Vec::new();
    let mut start: usize = 0;
    if platform == Platform::Windows && x.len() >= 2 && (('a' <= x[0] && x[0] <= 'z') || ('A'
        <= x[0] && x[0] <= 'Z')) && x[1] == ':' {
        let mut t = String::new();
        push_char(&mut t, upper_char(x[0]));
        push_char(&mut t, ':');
        out.push(t);
        start = 2;
    }
    let ghost rest = p@.skip(start as int);
    let root = start < x.len() && is_separator_exec(x[start], platform);
    if root {
        proof {
            reveal_strlit("/");
        }
        out.push(owned("/"));
    }
    let cur = !root && start < x.len() && x[start] == '.' && (start + 1 == x.len()
        || is_separator_exec(x[start + 1], platform));
    if cur {
        proof {
            reveal_strlit(".");
        }
        out.push(owned("."));
    }
    proof {
        assert(start == prefix_len(p@, platform));
        assert(rest.len() == x.len() - start);
        if rest.len() > 0 {
            assert(rest[0] == x@[start as int]);
        }
        if rest.len() > 1 {
            assert(rest[1] == x@[start + 1]);
        }
        assert(root == has_root(p@, platform));
        assert(cur == has_cur_dir(p@, platform));
        if has_drive(p@, platform) {
            assert(views(out@)[0] =~= seq![ascii_upper(p@[0]), ':']);
        }
        if root {
            assert("/"@ =~= seq!['/']);
        }
        if cur {
            assert("."@ =~= seq!['.']);
        }
        assert(views(out@) =~= lead_components(p@, platform));
    }
    (out, start)
}

/// Appends the ordinary components of `p` after position `start` to `out`.
fn push_ordinary_parts(
    p: &str,
    x: &Vec<char>,
    start: usize,
    platform: Platform,
    out: &mut Vec<String>,
)
    requires
        x@ == p@,
        start <= x.len(),
    ensures
        views(final(out)@) == views(old(out)@) + ordinary_parts(p@.skip(start as int), platform),
{
    let ghost base = views(out@);
    let mut seg: usize = start;
    let mut i: usize = start;
    assert(p@.subrange(start as int, start as int) =~= Seq::<char>::empty());
    while i < x.len()
        invariant
            x@ == p@,
            start <= seg <= i <= x.len(),
            views(out@) == base + scan_parts(p@.subrange(start as int, i as int), platform).0,
            p@.subrange(seg as int, i as int) == scan_parts(
                p@.subrange(start as int, i as int),
                platform,
            ).1,
        decreases x.len() - i,
    {
        let ghost s_next = p@.subrange(start as int, i + 1);
        assert(s_next.drop_last() =~= p@.subrange(start as int, i as int));
        assert(s_next.last() == x@[i as int]);
        if is_separator_exec(x[i], platform) {
            let dot = i == seg + 1 && x[seg] == '.';
            if i > seg && !dot {
                let part = owned(p.substring_char(seg, i));
                let ghost before = views(out@);
                out.push(part);
                proof {
                    assert(views(out@) =~= before.push(p@.subrange(seg as int, i as int)));
                    if p@.subrange(seg as int, i as int) == seq!['.'] {
                        assert(p@.subrange(seg as int, i as int).len() == 1);
                        assert(p@.subrange(seg as int, i as int)[0] == x@[seg as int]);
                        assert(false);
                    }
                }
            } else {
                proof {
                    if dot {
                        assert(p@.subrange(seg as int, i as int) =~= seq!['.']);
                    }
                }
            }
            seg = i + 1;
            assert(p@.subrange(seg as int, i + 1) =~= Seq::<char>::empty());
        } else {
            assert(p@.subrange(seg as int, i + 1) =~= p@.subrange(seg as int, i as int).push(
                x@[i as int],
            ));
        }
        i = i + 1;
    }
    assert(p@.subrange(start as int, x.len() as int) =~= p@.skip(start as int));
    let dot = seg < x.len() && x.len() - seg == 1 && x[seg] == '.';
    if x.len() > seg && !dot {
        let part = owned(p.substring_char(seg, x.len()));
        let ghost before = views(out@);
        out.push(part);
        proof {
            assert(views(out@) =~= before.push(p@.subrange(seg as int, x.len() as int)));
            if p@.subrange(seg as int, x.len() as int) == seq!['.'] {
                assert(p@.subrange(seg as int, x.len() as int).len() == 1);
                assert(p@.subrange(seg as int, x.len() as int)[0] == x@[seg as int]);
                assert(false);
            }
        }
    } else {
        proof {
            if dot {
                assert(p@.subrange(seg as int, x.len() as int) =~= seq!['.']);
            }
        }
    }
}

/// The normalized components of `p`.
pub fn path_components(p: &str, platform: Platform) -> (r: Vec<String>)
    ensures
        views(r@) == components(p@, platform),
{
    let x = chars_of(p);
    let (mut out, start) = lead_of(p, &x, platform);
    push_ordinary_parts(p, &x, start, platform, &mut out);
    out
}

/// `Path::starts_with`: whether the components of `base` begin the components of `p`.
pub fn starts_with(p: &str, base: &str, platform: Platform) -> (r: bool)
    ensures
        r == path_starts_with(p@, base@, platform),
{
    let c = path_components(p, platform);
    let b = path_components(base, platform);
    if b.len() > c.len() {
        return false;
    }
    let mut i: usize = 0;
    while i < b.len()
        invariant
            views(c@) == components(p@, platform),
            views(b@) == components(base@, platform),
            b.len() <= c.len(),
            i <= b.len(),
            forall|k: int| 0 <= k < i ==> views(c@)[k] == views(b@)[k],
        decreases b.len() - i,
    {
        if !crate::text::same_text(c[i].as_str(), b[i].as_str()) {
            assert(views(c@).take(b.len() as int)[i as int] != views(b@)[i as int]);
            return false;
        }
        i = i + 1;
    }
    assert(views(c@).take(b.len() as int) =~= views(b@));
    true
}

/// Whether `path` lies outside `workspace` (always, when there is no workspace).
pub fn is_outside_workspace(path: &str, workspace: Option<&str>, platform: Platform) -> (r: bool)
    ensures
        r == outside_workspace(
            path@,
            match workspace {
                Some(w) => Some(w@),
                None => None,
            },
            platform,
        ),
{
    match workspace {
        None => true,
        Some(w) => !starts_with(path, w, platform),
    }
}

/// `Path::file_name`: the final component of `p` when it is an ordinary name other than `..`.
pub fn path_file_name(p: &str, platform: Platform) -> (r: Option<String>)
    ensures
        match r {
            Some(n) => file_name(p@, platform) == Some(n@),
            None => file_name(p@, platform) is None,
        },
{
    let x = chars_of(p);
    let (_lead, start) = lead_of(p, &x, platform);
    let mut parts: Vec<String> = Vec::new();
    push_ordinary_parts(p, &x, start, platform, &mut parts);
    assert(views(parts@) =~= ordinary_parts(p@.skip(start as int), platform));
    if parts.len() == 0 {
        return None;
    }
    let last = parts[parts.len() - 1].clone();
    proof {
        reveal_strlit("..");
        assert(".."@ =~= seq!['.', '.']);
    }
    if crate::text::same_text(last.as_str(), "..") {
        assert(views(parts@).last() == last@);
        None
    } else {
        assert(views(parts@).last() == last@);
        Some(last)
    }
}

} // verus!
