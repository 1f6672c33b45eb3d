//! Windows path syntax as `Path::join` reads it: prefixes, roots and components, and the
//! rebuilding of a verbatim (`\\?\`) path when a component is added to it.
use vstd::prelude::*;
use crate::resources::push_char;

verus! {

/// A Windows separator: `\` or `/`.
pub open spec fn is_win_sep(c: char) -> bool {
    c == '\\' || c == '/'
}

/// A separator between components: only `\` inside a verbatim path, `\` or `/` elsewhere.
pub open spec fn is_part_sep(c: char, verbatim: bool) -> bool {
    if verbatim {
        c == '\\'
    } else {
        is_win_sep(c)
    }
}

/// An ASCII letter.
pub open spec fn is_ascii_letter(c: char) -> bool {
    ('a' <= c && c <= 'z') || ('A' <= c && c <= 'Z')
}

/// The end of the component of `p` that starts at `start`: the index of the next
/// separator at or after `start`, or the length of `p`.
pub open spec fn part_end(p: Seq<char>, start: int, verbatim: bool) -> int
    decreases p.len() - start,
{
    if start >= p.len() {
        p.len() as int
    } else if is_part_sep(p[start], verbatim) {
        start
    } else {
        part_end(p, start + 1, verbatim)
    }
}

pub proof fn lemma_part_end_bounds(p: Seq<char>, start: int, verbatim: bool)
    requires
        0 <= start,
    ensures
        start <= p.len() ==> start <= part_end(p, start, verbatim) <= p.len(),
        start > p.len() ==> part_end(p, start, verbatim) == p.len(),
    decreases p.len() - start,
{
    if start < p.len() && !is_part_sep(p[start], verbatim) {
        lemma_part_end_bounds(p, start + 1, verbatim);
    }
}

/// `p` starts with a drive: an ASCII letter and `:`.
pub open spec fn has_drive(p: Seq<char>) -> bool {
    p.len() >= 2 && is_ascii_letter(p[0]) && p[1] == ':'
}

/// `p` begins with `\\?\`, exactly with backslashes: a verbatim prefix.
pub open spec fn has_verbatim_head(p: Seq<char>) -> bool {
    p.len() >= 4 && p[0] == '\\' && p[1] == '\\' && p[2] == '?' && p[3] == '\\'
}

/// `p` begins with `\\?\UNC\`: a verbatim share.
pub open spec fn has_verbatim_unc_head(p: Seq<char>) -> bool {
    has_verbatim_head(p) && p.len() >= 8 && p[4] == 'U' && p[5] == 'N' && p[6] == 'C' && is_win_sep(p[7])
}

/// `p` begins with `\\.\` (either separator): a device prefix.
pub open spec fn has_device_head(p: Seq<char>) -> bool {
    p.len() >= 4 && is_win_sep(p[0]) && is_win_sep(p[1]) && p[2] == '.' && is_win_sep(p[3])
}

/// The length of the Windows prefix of `p` (`0` where it has none):
/// - a drive `C:`;
/// - a verbatim share `\\?\UNC\server\share`, a verbatim `\\?\name` (`\\?\C:` among them),
///   components split only at `\`;
/// - a device `\\.\name`;
/// - a share `\\server\share` with a non-empty server and share; any other `\\` head is
///   no prefix.
pub open spec fn windows_prefix_len(p: Seq<char>) -> int {
    if has_drive(p) {
        2
    } else if has_verbatim_unc_head(p) {
        let e1 = part_end(p, 8, true);
        if e1 < p.len() && part_end(p, e1 + 1, true) > e1 + 1 {
            part_end(p, e1 + 1, true)
        } else {
            e1
        }
    } else if has_verbatim_head(p) {
        part_end(p, 4, true)
    } else if has_device_head(p) {
        part_end(p, 4, false)
    } else if p.len() >= 2 && is_win_sep(p[0]) && is_win_sep(p[1]) {
        let e1 = part_end(p, 2, false);
        if e1 > 2 && e1 < p.len() && part_end(p, e1 + 1, false) > e1 + 1 {
            part_end(p, e1 + 1, false)
        } else {
            0
        }
    } else {
        0
    }
}

/// A component of a path after its prefix.
pub enum PathPart {
    Root,
    Cur,
    Parent,
    Normal(Seq<char>),
}

/// The component a piece of text between separators stands for: none for an empty
/// piece, `.`, `..`, or a name.
pub open spec fn classify(piece: Seq<char>) -> Seq<PathPart> {
    if piece.len() == 0 {
        seq![]
    } else if piece == seq!['.'] {
        seq![PathPart::Cur]
    } else if piece == seq!['.', '.'] {
        seq![PathPart::Parent]
    } else {
        seq![PathPart::Normal(piece)]
    }
}

/// The components of `p` from index `start` on.
pub open spec fn parts_from(p: Seq<char>, start: int, verbatim: bool) -> Seq<PathPart>
    decreases p.len() - start,
{
    if start < 0 || start >= p.len() {
        seq![]
    } else {
        let e = part_end(p, start, verbatim);
        proof {
            lemma_part_end_bounds(p, start, verbatim);
        }
        classify(p.subrange(start, e)) + if e < p.len() {
            parts_from(p, e + 1, verbatim)
        } else {
            seq![]
        }
    }
}

/// The components of `p` after a prefix of length `skip`: a root where a separator
/// follows the prefix, then the pieces between separators.
pub open spec fn parts_after(p: Seq<char>, skip: int, verbatim: bool) -> Seq<PathPart> {
    if skip < p.len() && is_win_sep(p[skip]) {
        seq![PathPart::Root] + parts_from(p, skip + 1, verbatim)
    } else {
        parts_from(p, skip, verbatim)
    }
}

/// One component of the added path applied to the components of a verbatim path: a root
/// drops everything after the prefix, `.` is dropped, `..` removes a preceding name.
pub open spec fn step_part(buf: Seq<PathPart>, c: PathPart) -> Seq<PathPart> {
    match c {
        PathPart::Root => seq![PathPart::Root],
        PathPart::Cur => buf,
        PathPart::Parent => if buf.len() > 0 && buf.last() is Normal {
            buf.drop_last()
        } else {
            buf
        },
        PathPart::Normal(_) => buf.push(c),
    }
}

/// All components of the added path applied in order.
pub open spec fn apply_parts(buf: Seq<PathPart>, comps: Seq<PathPart>) -> Seq<PathPart>
    decreases comps.len(),
{
    if comps.len() == 0 {
        buf
    } else {
        apply_parts(step_part(buf, comps[0]), comps.drop_first())
    }
}

/// The text of a component.
pub open spec fn part_text(c: PathPart) -> Seq<char> {
    match c {
        PathPart::Root => seq!['\\'],
        PathPart::Cur => seq!['.'],
        PathPart::Parent => seq!['.', '.'],
        PathPart::Normal(s) => s,
    }
}

/// Components written out after a verbatim prefix: a `\` before each one but a root and
/// but the one right after a root.
pub open spec fn render(parts: Seq<PathPart>, need_sep: bool) -> Seq<char>
    decreases parts.len(),
{
    if parts.len() == 0 {
        seq![]
    } else {
        let c = parts[0];
        (if need_sep && !(c is Root) { seq!['\\'] } else { seq![] }) + part_text(c) + render(
            parts.drop_first(),
            !(c is Root),
        )
    }
}

/// A non-empty `comp` without a prefix added to the verbatim path `base`: the components
/// of both are combined as [`step_part`] says and written out again after `base`'s prefix.
pub open spec fn verbatim_join(base: Seq<char>, comp: Seq<char>) -> Seq<char> {
    let pl = windows_prefix_len(base);
    base.take(pl) + render(apply_parts(parts_after(base, pl, true), parts_after(comp, 0, false)), true)
}

/// `base` extended by `comp` on Windows, as `Path::join` extends it: a `comp` with a
/// prefix replaces `base`; a verbatim `base` is rebuilt ([`verbatim_join`]) unless `comp`
/// is empty; a `comp` with a root but no prefix replaces all of `base` but its prefix; a
/// `base` that is just a drive (`C:`) takes `comp` without a separator; otherwise a `\`
/// goes between them unless `base` is empty or already ends in a separator.
pub open spec fn spec_windows_join(base: Seq<char>, comp: Seq<char>) -> Seq<char> {
    if windows_prefix_len(comp) > 0 {
        comp
    } else if has_verbatim_head(base) && comp.len() > 0 {
        verbatim_join(base, comp)
    } else if comp.len() > 0 && is_win_sep(comp[0]) {
        base.take(windows_prefix_len(base)) + comp
    } else if base.len() == 0 || is_win_sep(base.last()) || (has_drive(base) && base.len() == 2) {
        base + comp
    } else {
        base.push('\\') + comp
    }
}

/// A component held by the running code.
pub enum PathPiece {
    Root,
    Cur,
    Parent,
    Normal(Vec<char>),
}

pub open spec fn piece_view(p: PathPiece) -> PathPart {
    match p {
        PathPiece::Root => PathPart::Root,
        PathPiece::Cur => PathPart::Cur,
        PathPiece::Parent => PathPart::Parent,
        PathPiece::Normal(v) => PathPart::Normal(v@),
    }
}

pub open spec fn pieces_view(s: Seq<PathPiece>) -> Seq<PathPart> {
    s.map_values(|p: PathPiece| piece_view(p))
}

pub(crate) fn win_sep(c: char) -> (r: bool)
    ensures
        r == is_win_sep(c),
{
    c == '\\' || c == '/'
}

fn part_sep(c: char, verbatim: bool) -> (r: bool)
    ensures
        r == is_part_sep(c, verbatim),
{
    if verbatim {
        c == '\\'
    } else {
        c == '\\' || c == '/'
    }
}

/// See [`part_end`].
pub(crate) fn part_end_of(p: &Vec<char>, start: usize, verbatim: bool) -> (r: usize)
    requires
        start <= p.len(),
    ensures
        r as int == part_end(p@, start as int, verbatim),
        start <= r <= p.len(),
{
    let mut i = start;
    while i < p.len()
        invariant
            start <= i <= p.len(),
            part_end(p@, i as int, verbatim) == part_end(p@, start as int, verbatim),
        decreases p.len() - i,
    {
        if part_sep(p[i], verbatim) {
            return i;
        }
        i = i + 1;
    }
    i
}

/// See [`windows_prefix_len`].
pub(crate) fn windows_prefix_len_of(p: &Vec<char>) -> (r: usize)
    ensures
        r as int == windows_prefix_len(p@),
        r <= p.len(),
{
    let n = p.len();
    if n >= 2 && (('a' <= p[0] && p[0] <= 'z') || ('A' <= p[0] && p[0] <= 'Z')) && p[1] == ':' {
        return 2;
    }
    let verbatim_head = n >= 4 && p[0] == '\\' && p[1] == '\\' && p[2] == '?' && p[3] == '\\';
    if verbatim_head && n >= 8 && p[4] == 'U' && p[5] == 'N' && p[6] == 'C' && win_sep(p[7]) {
        let e1 = part_end_of(p, 8, true);
        if e1 < n {
            let e2 = part_end_of(p, e1 + 1, true);
            if e2 > e1 + 1 {
                return e2;
            }
        }
        return e1;
    }
    if verbatim_head {
        return part_end_of(p, 4, true);
    }
    if n >= 4 && win_sep(p[0]) && win_sep(p[1]) && p[2] == '.' && win_sep(p[3]) {
        return part_end_of(p, 4, false);
    }
    if n >= 2 && win_sep(p[0]) && win_sep(p[1]) {
        let e1 = part_end_of(p, 2, false);
        if e1 > 2 && e1 < n {
            let e2 = part_end_of(p, e1 + 1, false);
            if e2 > e1 + 1 {
                return e2;
            }
        }
        return 0;
    }
    0
}

/// The pieces of `p` from `start` on; see [`parts_from`].
fn split_parts_of(p: &Vec<char>, start: usize, verbatim: bool) -> (r: Vec<PathPiece>)
    requires
        start <= p.len(),
    ensures
        pieces_view(r@) == parts_from(p@, start as int, verbatim),
{
    let mut out: Vec<PathPiece> = Vec::new();
    let mut i = start;
    while i < p.len()
        invariant
            start <= i <= p.len(),
            pieces_view(out@) + parts_from(p@, i as int, verbatim) == parts_from(p@, start as int, verbatim),
        decreases p.len() - i,
    {
        let e = part_end_of(p, i, verbatim);
        let ghost piece = p@.subrange(i as int, e as int);
        let ghost before = pieces_view(out@);
        if e == i {
            assert(classify(piece) =~= seq![]);
        } else if e - i == 1 && p[i] == '.' {
            assert(piece =~= seq!['.']);
            out.push(PathPiece::Cur);
        } else if e - i == 2 && p[i] == '.' && p[i + 1] == '.' {
            assert(piece =~= seq!['.', '.']);
            out.push(PathPiece::Parent);
        } else {
            assert(piece != seq!['.']) by {
                if piece == seq!['.'] {
                    assert(piece[0] == p@[i as int]);
                }
            }
            assert(piece != seq!['.', '.']) by {
                if piece == seq!['.', '.'] {
                    assert(piece[0] == p@[i as int]);
                    assert(piece[1] == p@[i + 1]);
                }
            }
            let mut v: Vec<char> = Vec::new();
            let mut j = i;
            while j < e
                invariant
                    i <= j <= e,
                    e <= p.len(),
                    v@ == p@.subrange(i as int, j as int),
                decreases e - j,
            {
                v.push(p[j]);
                assert(p@.subrange(i as int, j + 1) =~= p@.subrange(i as int, j as int).push(p@[j as int]));
                j = j + 1;
            }
            out.push(PathPiece::Normal(v));
        }
        assert(pieces_view(out@) =~= before + classify(piece));
        i = if e < p.len() { e + 1 } else { p.len() };
    }
    assert(pieces_view(out@) + parts_from(p@, i as int, verbatim) =~= pieces_view(out@));
    out
}

/// The components of `p` after a prefix of length `skip`; see [`parts_after`].
fn parts_after_of(p: &Vec<char>, skip: usize, verbatim: bool) -> (r: Vec<PathPiece>)
    requires
        skip <= p.len(),
    ensures
        pieces_view(r@) == parts_after(p@, skip as int, verbatim),
{
    if skip < p.len() && win_sep(p[skip]) {
        let rest = split_parts_of(p, skip + 1, verbatim);
        let mut out: Vec<PathPiece> = Vec::new();
        out.push(PathPiece::Root);
        let mut rest = rest;
        let ghost rv = pieces_view(rest@);
        out.append(&mut rest);
        assert(pieces_view(out@) =~= seq![PathPart::Root] + rv);
        out
    } else {
        split_parts_of(p, skip, verbatim)
    }
}

/// See [`verbatim_join`].
fn verbatim_join_of(b: &Vec<char>, c: &Vec<char>) -> (r: String)
    ensures
        r@ == verbatim_join(b@, c@),
{
    let pl = windows_prefix_len_of(b);
    let mut buf = parts_after_of(b, pl, true);
    let mut comps = parts_after_of(c, 0, false);
    let ghost target = apply_parts(parts_after(b@, pl as int, true), parts_after(c@, 0, false));
    while comps.len() > 0
        invariant
            apply_parts(pieces_view(buf@), pieces_view(comps@)) == target,
        decreases comps.len(),
    {
        let ghost old_buf = pieces_view(buf@);
        let ghost old_comps = pieces_view(comps@);
        let piece = comps.remove(0);
        assert(pieces_view(comps@) =~= old_comps.drop_first());
        assert(old_comps[0] == piece_view(piece));
        match piece {
            PathPiece::Root => {
                buf.clear();
                buf.push(PathPiece::Root);
                assert(pieces_view(buf@) =~= seq![PathPart::Root]);
            },
            PathPiece::Cur => {},
            PathPiece::Parent => {
                let n = buf.len();
                if n > 0 {
                    let last_is_name = match &buf[n - 1] {
                        PathPiece::Normal(_) => true,
                        _ => false,
                    };
                    if last_is_name {
                        buf.pop();
                        assert(pieces_view(buf@) =~= old_buf.drop_last());
                    }
                }
            },
            PathPiece::Normal(v) => {
                buf.push(PathPiece::Normal(v));
                assert(pieces_view(buf@) =~= old_buf.push(old_comps[0]));
            },
        }
    }
    let mut out = String::new();
    let mut i: usize = 0;
    while i < pl
        invariant
            pl <= b.len(),
            i <= pl,
            out@ == b@.take(i as int),
        decreases pl - i,
    {
        push_char(&mut out, b[i]);
        assert(b@.take(i + 1) == b@.take(i as int).push(b@[i as int]));
        i = i + 1;
    }
    let ghost prefix = out@;
    let mut need_sep = true;
    while buf.len() > 0
        invariant
            out@ + render(pieces_view(buf@), need_sep) == prefix + render(target, true),
        decreases buf.len(),
    {
        let ghost old_out = out@;
        let ghost old_buf = pieces_view(buf@);
        let ghost old_need = need_sep;
        let piece = buf.remove(0);
        assert(pieces_view(buf@) =~= old_buf.drop_first());
        assert(old_buf[0] == piece_view(piece));
        match piece {
            PathPiece::Root => {
                push_char(&mut out, '\\');
                need_sep = false;
            },
            PathPiece::Cur => {
                if need_sep {
                    push_char(&mut out, '\\');
                }
                push_char(&mut out, '.');
                need_sep = true;
            },
            PathPiece::Parent => {
                if need_sep {
                    push_char(&mut out, '\\');
                }
                push_char(&mut out, '.');
                push_char(&mut out, '.');
                need_sep = true;
            },
            PathPiece::Normal(v) => {
                if need_sep {
                    push_char(&mut out, '\\');
                }
                let ghost mid = out@;
                let mut j: usize = 0;
                while j < v.len()
                    invariant
                        j <= v.len(),
                        out@ == mid + v@.take(j as int),
                    decreases v.len() - j,
                {
                    push_char(&mut out, v[j]);
                    assert(v@.take(j + 1) == v@.take(j as int).push(v@[j as int]));
                    j = j + 1;
                }
                assert(v@.take(v.len() as int) =~= v@);
                need_sep = true;
            },
        }
        assert(out@ =~= old_out + (if old_need && !(old_buf[0] is Root) { seq!['\\'] } else { seq![] })
            + part_text(old_buf[0]));
    }
    assert(b@.take(pl as int) == prefix);
    out
}

/// See [`spec_windows_join`].
pub(crate) fn windows_join_of(b: &Vec<char>, c: &Vec<char>, base: &str, comp: &str) -> (r: String)
    requires
        b@ == base@,
        c@ == comp@,
    ensures
        r@ == spec_windows_join(base@, comp@),
{
    if windows_prefix_len_of(c) > 0 {
        return String::from_str(comp);
    }
    let verbatim_base = b.len() >= 4 && b[0] == '\\' && b[1] == '\\' && b[2] == '?' && b[3] == '\\';
    if verbatim_base && c.len() > 0 {
        return verbatim_join_of(b, c);
    }
    if c.len() > 0 && win_sep(c[0]) {
        let keep = windows_prefix_len_of(b);
        let mut out = String::new();
        let mut i: usize = 0;
        while i < keep
            invariant
                keep <= b.len(),
                i <= keep,
                out@ == b@.take(i as int),
            decreases keep - i,
        {
            push_char(&mut out, b[i]);
            assert(b@.take(i + 1) == b@.take(i as int).push(b@[i as int]));
            i = i + 1;
        }
        out.append(comp);
        return out;
    }
    let mut out = String::from_str(base);
    let n = b.len();
    let drive_only = n == 2 && (('a' <= b[0] && b[0] <= 'z') || ('A' <= b[0] && b[0] <= 'Z')) && b[1] == ':';
    if n > 0 && !win_sep(b[n - 1]) && !drive_only {
        push_char(&mut out, '\\');
    }
    out.append(comp);
    out
}

} // verus!
