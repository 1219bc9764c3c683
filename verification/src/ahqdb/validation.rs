//! Logical resolution of user supplied paths against a virtual root.
//!
//! Paths follow the Windows conventions of the installer: both `/` and `\`
//! separate components, a leading separator or a drive prefix (`C:`) makes a
//! path absolute, and joined paths use `\`.
use vstd::prelude::*;

use crate::text::{chars_of, has_prefix, skip_chars, starts_with_chars, string_of};

verus! {

/// Why a user supplied path was refused.
#[derive(Debug, PartialEq, Eq, Structural)]
pub enum PathError {
    InvalidPath,
    InvalidEncoding,
    PathTraversalAttempt,
    AbsolutePathsNotAllowed,
}

/// `/` and `\` both separate path components.
pub open spec fn is_separator(c: char) -> bool {
    c == '/' || c == '\\'
}

pub open spec fn is_ascii_letter(c: char) -> bool {
    ('a' <= c && c <= 'z') || ('A' <= c && c <= 'Z')
}

/// The path starts with a drive prefix such as `C:`.
pub open spec fn has_drive_prefix(s: Seq<char>) -> bool {
    s.len() >= 2 && is_ascii_letter(s[0]) && s[1] == ':'
}

/// The path starts with a separator: it has a root.
pub open spec fn starts_with_separator(s: Seq<char>) -> bool {
    s.len() >= 1 && is_separator(s[0])
}

/// A path that is anchored somewhere else than the current directory:
/// it has a root or a drive prefix.
pub open spec fn is_anchored(s: Seq<char>) -> bool {
    starts_with_separator(s) || has_drive_prefix(s)
}

/// The path starts with two separators (a UNC or verbatim prefix).
pub open spec fn has_double_separator_prefix(s: Seq<char>) -> bool {
    s.len() >= 2 && is_separator(s[0]) && is_separator(s[1])
}

/// A component that is kept as a name: neither empty, `.` nor `..`.
pub open spec fn is_name_piece(piece: Seq<char>) -> bool {
    piece.len() > 0 && piece != seq!['.'] && piece != seq!['.', '.']
}

/// The effect of one component on the stack of names resolved so far;
/// `None` when `..` would leave the root.
pub open spec fn apply_piece(stack: Seq<Seq<char>>, piece: Seq<char>) -> Option<Seq<Seq<char>>> {
    if piece.len() == 0 || piece == seq!['.'] {
        Some(stack)
    } else if piece == seq!['.', '.'] {
        if stack.len() == 0 {
            None
        } else {
            Some(stack.drop_last())
        }
    } else {
        Some(stack.push(piece))
    }
}

/// Reads `rest` from the left: characters accumulate into the current piece,
/// each separator (and the end) applies the piece to the stack.
pub open spec fn scan_pieces(
    stack: Seq<Seq<char>>,
    piece: Seq<char>,
    rest: Seq<char>,
) -> Option<Seq<Seq<char>>>
    decreases rest.len(),
{
    if rest.len() == 0 {
        apply_piece(stack, piece)
    } else if is_separator(rest[0]) {
        match apply_piece(stack, piece) {
            Some(next) => scan_pieces(next, Seq::empty(), rest.drop_first()),
            None => None,
        }
    } else {
        scan_pieces(stack, piece.push(rest[0]), rest.drop_first())
    }
}

/// The names that a relative path denotes below its root, or why it is refused.
pub open spec fn logical_components(path: Seq<char>) -> Result<Seq<Seq<char>>, PathError> {
    if is_anchored(path) {
        Err(PathError::AbsolutePathsNotAllowed)
    } else {
        match scan_pieces(Seq::empty(), Seq::empty(), path) {
            Some(names) => Ok(names),
            None => Err(PathError::PathTraversalAttempt),
        }
    }
}

/// A separator goes between `base` and a relative part unless `base` is
/// empty, already ends in a separator, or is a bare drive such as `C:`.
pub open spec fn needs_separator(base: Seq<char>) -> bool {
    base.len() > 0 && !is_separator(base.last()) && !(base.len() == 2 && has_drive_prefix(base))
}

/// The drive prefix of `base`, if it has one.
pub open spec fn drive_of(base: Seq<char>) -> Seq<char> {
    if has_drive_prefix(base) {
        base.take(2)
    } else {
        Seq::empty()
    }
}

/// Appending `part` to `base` as `PathBuf::push` does on Windows: a part with
/// a prefix replaces the base, a rooted part keeps only the base's drive, and
/// a relative part is appended after a `\` where one is needed.
pub open spec fn path_push(base: Seq<char>, part: Seq<char>) -> Seq<char> {
    if has_drive_prefix(part) || has_double_separator_prefix(part) {
        part
    } else if starts_with_separator(part) {
        drive_of(base) + part
    } else if needs_separator(base) {
        base + seq!['\\'] + part
    } else {
        base + part
    }
}

/// `root` with each of `parts` pushed onto it in order.
pub open spec fn join_all(root: Seq<char>, parts: Seq<Seq<char>>) -> Seq<char>
    decreases parts.len(),
{
    if parts.len() == 0 {
        root
    } else {
        path_push(join_all(root, parts.drop_last()), parts.last())
    }
}

/// What `resolve_logical_path(root, path)` returns.
pub open spec fn resolved(root: Seq<char>, path: Seq<char>) -> Result<Seq<char>, PathError> {
    match logical_components(path) {
        Ok(names) => Ok(join_all(root, names)),
        Err(e) => Err(e),
    }
}

/// The scheme that user paths must carry.
pub open spec fn root_scheme() -> Seq<char> {
    seq!['r', 'o', 'o', 't', ':', '/', '/']
}

/// What `secure_logical_resolve(root, uri)` returns.
pub open spec fn secure_resolved(root: Seq<char>, uri: Seq<char>) -> Result<Seq<char>, PathError> {
    if uri.len() >= 7 && uri.take(7) == root_scheme() {
        resolved(root, uri.skip(7))
    } else {
        Err(PathError::InvalidPath)
    }
}

fn is_separator_char(c: char) -> (b: bool)
    ensures
        b == is_separator(c),
{
    c == '/' || c == '\\'
}

fn has_drive_prefix_chars(s: &Vec<char>) -> (b: bool)
    ensures
        b == has_drive_prefix(s@),
{
    if s.len() >= 2 {
        let c = s[0];
        (('a' <= c && c <= 'z') || ('A' <= c && c <= 'Z')) && s[1] == ':'
    } else {
        false
    }
}

fn starts_with_separator_chars(s: &Vec<char>) -> (b: bool)
    ensures
        b == starts_with_separator(s@),
{
    s.len() >= 1 && is_separator_char(s[0])
}

/// Appends all of `tail` to `out`.
fn extend_chars(out: &mut Vec<char>, tail: &Vec<char>)
    ensures
        final(out)@ == old(out)@ + tail@,
{
    let mut i: usize = 0;
    while i < tail.len()
        invariant
            i <= tail.len(),
            out@ == old(out)@ + tail@.take(i as int),
        decreases tail.len() - i,
    {
        out.push(tail[i]);
        assert(tail@.take(i as int).push(tail@[i as int]) =~= tail@.take(i + 1));
        i = i + 1;
    }
    assert(tail@.take(tail.len() as int) =~= tail@);
}

/// `PathBuf::push` on character vectors, with Windows rules (see [`path_push`]).
pub fn push_path(base: &mut Vec<char>, part: &Vec<char>)
    ensures
        final(base)@ == path_push(old(base)@, part@),
{
    if has_drive_prefix_chars(part) || (part.len() >= 2 && is_separator_char(part[0])
        && is_separator_char(part[1])) {
        let mut replaced: Vec<char> = Vec::new();
        extend_chars(&mut replaced, part);
        assert(replaced@ =~= part@);
        *base = replaced;
    } else if starts_with_separator_chars(part) {
        let mut rooted: Vec<char> = Vec::new();
        if has_drive_prefix_chars(base) {
            rooted.push(base[0]);
            rooted.push(base[1]);
            assert(rooted@ =~= base@.take(2));
        }
        extend_chars(&mut rooted, part);
        *base = rooted;
    } else {
        let n = base.len();
        let bare_drive = n == 2 && has_drive_prefix_chars(base);
        if n > 0 && !is_separator_char(base[n - 1]) && !bare_drive {
            base.push('\\');
        }
        extend_chars(base, part);
    }
}

/// `base` with `part` pushed onto it (see [`path_push`]).
pub fn pushed_path(base: &str, part: &str) -> (r: String)
    ensures
        r@ == path_push(base@, part@),
{
    let mut b = chars_of(base);
    push_path(&mut b, &chars_of(part));
    string_of(&b)
}

/// Applies one component to the stack; `false` when `..` would leave the root.
fn apply_piece_exec(stack: &mut Vec<Vec<char>>, piece: Vec<char>) -> (ok: bool)
    ensures
        ok == apply_piece(old(stack).deep_view(), piece@) is Some,
        ok ==> final(stack).deep_view() == apply_piece(old(stack).deep_view(), piece@)->0,
{
    let ghost before = stack.deep_view();
    let n = piece.len();
    let is_dot = n == 1 && piece[0] == '.';
    let is_dot_dot = n == 2 && piece[0] == '.' && piece[1] == '.';
    assert(is_dot == (piece@ == seq!['.'])) by {
        if n == 1 && piece@[0] == '.' {
            assert(piece@ =~= seq!['.']);
        }
    }
    assert(is_dot_dot == (piece@ == seq!['.', '.'])) by {
        if n == 2 && piece@[0] == '.' && piece@[1] == '.' {
            assert(piece@ =~= seq!['.', '.']);
        }
    }
    if n == 0 || is_dot {
        true
    } else if is_dot_dot {
        if stack.len() == 0 {
            false
        } else {
            stack.pop();
            assert(stack.deep_view() =~= before.drop_last());
            true
        }
    } else {
        let ghost pv = piece@;
        assert(piece.deep_view() =~= pv);
        stack.push(piece);
        assert(stack.deep_view() =~= before.push(pv));
        true
    }
}

/// Resolves a relative `path` below `virtual_root`: `.` and empty components
/// are dropped, `..` removes the previous name, and the remaining names are
/// pushed onto the root. Anchored paths and paths that climb above the root
/// are refused.
pub fn resolve_logical_path(virtual_root: &str, path: &str) -> (r: Result<String, PathError>)
    ensures
        match resolved(virtual_root@, path@) {
            Ok(p) => r matches Ok(s) && s@ == p,
            Err(e) => r == Err::<String, PathError>(e),
        },
{
    let chars = chars_of(path);
    resolve_chars(virtual_root, &chars)
}

/// Resolves the user path `uri`, which must carry the `root://` scheme, below
/// `virtual_root` (see [`resolve_logical_path`] for the rest).
pub fn secure_logical_resolve(virtual_root: &str, user_uri: &str) -> (r: Result<String, PathError>)
    ensures
        match secure_resolved(virtual_root@, user_uri@) {
            Ok(p) => r matches Ok(s) && s@ == p,
            Err(e) => r == Err::<String, PathError>(e),
        },
{
    let chars = chars_of(user_uri);
    let scheme = chars_of("root://");
    proof {
        reveal_strlit("root://");
    }
    assert(scheme@ =~= root_scheme());
    if !starts_with_chars(&chars, &scheme) {
        return Err(PathError::InvalidPath);
    }
    let rest = skip_chars(&chars, 7);
    resolve_chars(virtual_root, &rest)
}

fn resolve_chars(virtual_root: &str, chars: &Vec<char>) -> (r: Result<String, PathError>)
    ensures
        match resolved(virtual_root@, chars@) {
            Ok(p) => r matches Ok(s) && s@ == p,
            Err(e) => r == Err::<String, PathError>(e),
        },
{
    if starts_with_separator_chars(&chars) || has_drive_prefix_chars(&chars) {
        return Err(PathError::AbsolutePathsNotAllowed);
    }
    let ghost empty_stack: Seq<Seq<char>> = Seq::empty();
    let ghost goal = scan_pieces(empty_stack, Seq::empty(), chars@);
    let mut stack: Vec<Vec<char>> = Vec::new();
    let mut piece: Vec<char> = Vec::new();
    let mut i: usize = 0;
    assert(stack.deep_view() =~= empty_stack);
    assert(chars@.skip(0) =~= chars@);
    while i < chars.len()
        invariant
            i <= chars.len(),
            !is_anchored(chars@),
            goal == scan_pieces(Seq::empty(), Seq::empty(), chars@),
            scan_pieces(stack.deep_view(), piece@, chars@.skip(i as int)) == goal,
        decreases chars.len() - i,
    {
        let c = chars[i];
        assert(chars@.skip(i as int).drop_first() =~= chars@.skip(i + 1));
        if is_separator_char(c) {
            let ghost stack_before = stack.deep_view();
            let ghost pv = piece@;
            let mut taken: Vec<char> = Vec::new();
            std::mem::swap(&mut taken, &mut piece);
            assert(taken@ == pv);
            if !apply_piece_exec(&mut stack, taken) {
                assert(apply_piece(stack_before, pv) is None);
                assert(goal is None);
                return Err(PathError::PathTraversalAttempt);
            }
            assert(piece@ =~= Seq::<char>::empty());
        } else {
            piece.push(c);
        }
        i = i + 1;
    }
    assert(chars@.skip(i as int) =~= Seq::<char>::empty());
    if !apply_piece_exec(&mut stack, piece) {
        return Err(PathError::PathTraversalAttempt);
    }
    let ghost names = stack.deep_view();
    let mut out = chars_of(virtual_root);
    let mut k: usize = 0;
    while k < stack.len()
        invariant
            k <= stack.len(),
            names == stack.deep_view(),
            out@ == join_all(virtual_root@, names.take(k as int)),
        decreases stack.len() - k,
    {
        push_path(&mut out, &stack[k]);
        assert(names.take(k + 1).drop_last() =~= names.take(k as int));
        k = k + 1;
    }
    assert(names.take(stack.len() as int) =~= names);
    Ok(string_of(&out))
}

/// The piece has no separator in it.
pub open spec fn has_no_separator(piece: Seq<char>) -> bool {
    forall|i: int| 0 <= i < piece.len() ==> !is_separator(#[trigger] piece[i])
}

proof fn lemma_scan_without_separator(stack: Seq<Seq<char>>, piece: Seq<char>, rest: Seq<char>)
    requires
        has_no_separator(rest),
    ensures
        scan_pieces(stack, piece, rest) == apply_piece(stack, piece + rest),
    decreases rest.len(),
{
    if rest.len() == 0 {
        assert(piece + rest =~= piece);
    } else {
        assert(!is_separator(rest[0]));
        let tail = rest.drop_first();
        assert forall|i: int| 0 <= i < tail.len() implies !is_separator(#[trigger] tail[i]) by {
            assert(tail[i] == rest[i + 1]);
        }
        lemma_scan_without_separator(stack, piece.push(rest[0]), tail);
        assert(piece.push(rest[0]) + tail =~= piece + rest);
    }
}

proof fn lemma_scan_split(stack: Seq<Seq<char>>, piece: Seq<char>, a: Seq<char>, b: Seq<char>)
    ensures
        scan_pieces(stack, piece, a + seq!['/'] + b) == (match scan_pieces(stack, piece, a) {
            Some(next) => scan_pieces(next, Seq::empty(), b),
            None => None,
        }),
    decreases a.len(),
{
    let whole = a + seq!['/'] + b;
    if a.len() == 0 {
        assert(whole[0] == '/');
        assert(whole.drop_first() =~= b);
    } else {
        assert(whole[0] == a[0]);
        assert(whole.drop_first() =~= a.drop_first() + seq!['/'] + b);
        if is_separator(a[0]) {
            if let Some(next) = apply_piece(stack, piece) {
                lemma_scan_split(next, Seq::empty(), a.drop_first(), b);
            }
        } else {
            lemma_scan_split(stack, piece.push(a[0]), a.drop_first(), b);
        }
    }
}

/// A name is kept as it is: a path made of one plain name (not empty, not
/// `.` or `..`, without separators, not looking like a drive) denotes exactly
/// that name, and resolves to the root with the name pushed onto it. Names
/// that merely start with a dot, such as `.config`, are names like any other.
pub proof fn lemma_single_name_is_kept(root: Seq<char>, name: Seq<char>)
    requires
        name.len() > 0,
        name != seq!['.'],
        name != seq!['.', '.'],
        has_no_separator(name),
        !has_drive_prefix(name),
    ensures
        logical_components(name) == Ok::<Seq<Seq<char>>, PathError>(seq![name]),
        resolved(root, name) == Ok::<Seq<char>, PathError>(path_push(root, name)),
{
    assert(!is_separator(name[0]));
    lemma_scan_without_separator(Seq::empty(), Seq::empty(), name);
    assert(Seq::<char>::empty() + name =~= name);
    assert(Seq::<Seq<char>>::empty().push(name) =~= seq![name]);
    let parts = seq![name];
    assert(parts.drop_last() =~= Seq::<Seq<char>>::empty());
    assert(join_all(root, parts) == path_push(join_all(root, parts.drop_last()), parts.last()));
}

/// Appending `/name` to a relative path that resolves appends exactly that
/// name to what it denotes: a plain name (not empty, not `.` or `..`, without
/// separators) is never dropped or altered, and resolution pushes it onto the
/// result of the shorter path.
pub proof fn lemma_appended_name_is_kept(root: Seq<char>, path: Seq<char>, name: Seq<char>)
    requires
        path.len() > 0,
        logical_components(path) is Ok,
        name.len() > 0,
        name != seq!['.'],
        name != seq!['.', '.'],
        has_no_separator(name),
    ensures
        logical_components(path + seq!['/'] + name) == Ok::<Seq<Seq<char>>, PathError>(
            logical_components(path)->Ok_0.push(name),
        ),
        resolved(root, path + seq!['/'] + name) == Ok::<Seq<char>, PathError>(
            path_push(resolved(root, path)->Ok_0, name),
        ),
{
    let whole = path + seq!['/'] + name;
    assert(whole[0] == path[0]);
    if path.len() >= 2 {
        assert(whole[1] == path[1]);
    }
    assert(!is_anchored(whole));
    lemma_scan_split(Seq::empty(), Seq::empty(), path, name);
    let names = logical_components(path)->Ok_0;
    lemma_scan_without_separator(names, Seq::empty(), name);
    assert(Seq::<char>::empty() + name =~= name);
    let longer = names.push(name);
    assert(longer.drop_last() =~= names);
}

/// A `.` component changes nothing, and `..` right after a name takes that
/// name back: for a relative path that resolves, `path/.` denotes the same
/// names as `path`, and so does `path/name/..` for any plain name.
pub proof fn lemma_dot_and_parent_steps(path: Seq<char>, name: Seq<char>)
    requires
        path.len() > 0,
        logical_components(path) is Ok,
        name.len() > 0,
        name != seq!['.'],
        name != seq!['.', '.'],
        has_no_separator(name),
    ensures
        logical_components(path + seq!['/'] + seq!['.']) == logical_components(path),
        logical_components(path + seq!['/'] + (name + seq!['/'] + seq!['.', '.'])) == logical_components(path),
{
    let names = logical_components(path)->Ok_0;
    let dot = seq!['.'];
    let dotdot = seq!['.', '.'];
    let w1 = path + seq!['/'] + dot;
    assert(w1[0] == path[0]);
    if path.len() >= 2 {
        assert(w1[1] == path[1]);
    }
    lemma_scan_split(Seq::empty(), Seq::empty(), path, dot);
    assert(has_no_separator(dot));
    lemma_scan_without_separator(names, Seq::empty(), dot);
    assert(Seq::<char>::empty() + dot =~= dot);

    let tail = name + seq!['/'] + dotdot;
    let w2 = path + seq!['/'] + tail;
    assert(w2[0] == path[0]);
    if path.len() >= 2 {
        assert(w2[1] == path[1]);
    }
    lemma_scan_split(Seq::empty(), Seq::empty(), path, tail);
    lemma_scan_split(names, Seq::empty(), name, dotdot);
    lemma_scan_without_separator(names, Seq::empty(), name);
    assert(Seq::<char>::empty() + name =~= name);
    assert(has_no_separator(dotdot));
    lemma_scan_without_separator(names.push(name), Seq::empty(), dotdot);
    assert(Seq::<char>::empty() + dotdot =~= dotdot);
    assert(names.push(name).drop_last() =~= names);
}

/// A name kept by resolution: a name piece without separators.
pub open spec fn is_plain_name(piece: Seq<char>) -> bool {
    is_name_piece(piece) && forall|i: int| 0 <= i < piece.len() ==> !is_separator(#[trigger] piece[i])
}

proof fn lemma_apply_piece_plain(stack: Seq<Seq<char>>, piece: Seq<char>)
    requires
        forall|j: int| 0 <= j < stack.len() ==> is_plain_name(#[trigger] stack[j]),
        forall|i: int| 0 <= i < piece.len() ==> !is_separator(#[trigger] piece[i]),
    ensures
        apply_piece(stack, piece) matches Some(next) ==> forall|j: int|
            0 <= j < next.len() ==> is_plain_name(#[trigger] next[j]),
{
    if let Some(next) = apply_piece(stack, piece) {
        assert forall|j: int| 0 <= j < next.len() implies is_plain_name(#[trigger] next[j]) by {
            if piece.len() == 0 || piece == seq!['.'] {
            } else if piece == seq!['.', '.'] {
                assert(next[j] == stack[j]);
            } else if j < stack.len() {
                assert(next[j] == stack[j]);
            }
        }
    }
}

proof fn lemma_scan_pieces_plain(stack: Seq<Seq<char>>, piece: Seq<char>, rest: Seq<char>)
    requires
        forall|j: int| 0 <= j < stack.len() ==> is_plain_name(#[trigger] stack[j]),
        forall|i: int| 0 <= i < piece.len() ==> !is_separator(#[trigger] piece[i]),
    ensures
        scan_pieces(stack, piece, rest) matches Some(names) ==> forall|j: int|
            0 <= j < names.len() ==> is_plain_name(#[trigger] names[j]),
    decreases rest.len(),
{
    lemma_apply_piece_plain(stack, piece);
    if rest.len() == 0 {
    } else if is_separator(rest[0]) {
        if let Some(next) = apply_piece(stack, piece) {
            lemma_scan_pieces_plain(next, Seq::empty(), rest.drop_first());
        }
    } else {
        let longer = piece.push(rest[0]);
        assert forall|i: int| 0 <= i < longer.len() implies !is_separator(#[trigger] longer[i]) by {
            if i < piece.len() {
                assert(longer[i] == piece[i]);
            }
        }
        lemma_scan_pieces_plain(stack, longer, rest.drop_first());
    }
}

/// Every name that resolution keeps is a real name: it is not empty, not `.`
/// or `..`, and holds no separator.
pub proof fn lemma_resolved_names_are_plain(path: Seq<char>)
    ensures
        logical_components(path) matches Ok(names) ==> forall|j: int|
            0 <= j < names.len() ==> is_plain_name(#[trigger] names[j]),
{
    lemma_scan_pieces_plain(Seq::empty(), Seq::empty(), path);
}

proof fn lemma_join_keeps_root(root: Seq<char>, names: Seq<Seq<char>>)
    requires
        forall|j: int| 0 <= j < names.len() ==> is_plain_name(#[trigger] names[j]),
        forall|j: int| 0 <= j < names.len() ==> !has_drive_prefix(#[trigger] names[j]),
    ensures
        has_prefix(join_all(root, names), root),
    decreases names.len(),
{
    if names.len() == 0 {
        assert(root.take(root.len() as int) =~= root);
    } else {
        let init = names.drop_last();
        assert forall|j: int| 0 <= j < init.len() implies is_plain_name(#[trigger] init[j]) by {
            assert(init[j] == names[j]);
        }
        assert forall|j: int| 0 <= j < init.len() implies !has_drive_prefix(#[trigger] init[j]) by {
            assert(init[j] == names[j]);
        }
        lemma_join_keeps_root(root, init);
        let base = join_all(root, init);
        let part = names.last();
        assert(is_plain_name(names[names.len() - 1]));
        assert(!has_drive_prefix(names[names.len() - 1]));
        assert(!is_separator(part[0]));
        let pushed = path_push(base, part);
        assert(pushed.take(root.len() as int) =~= base.take(root.len() as int));
        assert(pushed == join_all(root, names));
    }
}

/// A successful resolution stays below the virtual root: the result begins
/// with the root itself. This holds whenever no component of the path looks
/// like a drive (`C:`), which Windows path joining would let replace the root.
pub proof fn lemma_resolved_stays_under_root(root: Seq<char>, path: Seq<char>)
    requires
        logical_components(path) matches Ok(names) ==> forall|j: int|
            0 <= j < names.len() ==> !has_drive_prefix(#[trigger] names[j]),
    ensures
        resolved(root, path) matches Ok(p) ==> has_prefix(p, root),
{
    lemma_resolved_names_are_plain(path);
    if let Ok(names) = logical_components(path) {
        lemma_join_keeps_root(root, names);
    }
}

} // verus!
