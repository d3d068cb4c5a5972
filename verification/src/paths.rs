//! File paths, as the operating system's library builds and shows them.

use std::path::PathBuf;
use vstd::prelude::*;

verus! {

/// A path of the operating system.
#[verifier::external_type_specification]
#[verifier::external_body]
pub struct ExPathBuf(std::path::PathBuf);

/// One component of a path.
pub enum PathPart {
    /// A prefix such as a drive.
    Prefix(Seq<char>),
    Root,
    Current,
    Parent,
    Name(Seq<char>),
}

/// The components of a path, in order.
pub uninterp spec fn path_parts(path: PathBuf) -> Seq<PathPart>;

/// The text by which a path is shown.
pub uninterp spec fn path_text(path: PathBuf) -> Seq<char>;

/// `PathBuf::clone` makes an equal path.
pub assume_specification[ <PathBuf as Clone>::clone ](path: &PathBuf) -> (copy: PathBuf)
    ensures
        copy == *path,
;

/// Calls `Path::display` and prints it. The text is named by [`path_text`].
#[verifier::external_body]
pub(crate) fn shown_path(path: &PathBuf) -> (text: String)
    ensures
        text@ == path_text(*path),
{
    path.display().to_string()
}

/// Whether a character can stand in the name of a file or directory on every system: it neither
/// separates components nor marks a prefix.
pub open spec fn is_name_char(c: char) -> bool {
    c != '/' && c != '\\' && c != ':'
}

/// Whether a text is the name of one file or directory on every system: not empty, no special
/// name, and made of characters that can stand in a name.
pub open spec fn is_plain_name(name: Seq<char>) -> bool {
    &&& name.len() > 0
    &&& name != "."@
    &&& name != ".."@
    &&& forall|i: int| 0 <= i < name.len() ==> is_name_char(#[trigger] name[i])
}

/// A text of three characters or more is a plain name where its characters permit.
pub proof fn lemma_plain_name(name: Seq<char>)
    requires
        name.len() > 2,
        forall|i: int| 0 <= i < name.len() ==> is_name_char(#[trigger] name[i]),
    ensures
        is_plain_name(name),
{
    reveal_strlit(".");
    reveal_strlit("..");
}

/// The parts of `current` followed by `text` between slashes, where `current` is the part being
/// read.
pub open spec fn segments_after(current: Seq<char>, text: Seq<char>) -> Seq<Seq<char>>
    decreases text.len(),
{
    if text.len() == 0 {
        seq![current]
    } else if text[0] == '/' {
        seq![current] + segments_after(Seq::empty(), text.drop_first())
    } else {
        segments_after(current.push(text[0]), text.drop_first())
    }
}

/// The parts of a text between slashes.
pub open spec fn segments(text: Seq<char>) -> Seq<Seq<char>> {
    segments_after(Seq::empty(), text)
}

/// The component that a part between slashes stands for; an empty part and a single dot stand for
/// none.
pub open spec fn segment_parts(segment: Seq<char>) -> Seq<PathPart> {
    if segment.len() == 0 || segment == "."@ {
        Seq::empty()
    } else if segment == ".."@ {
        seq![PathPart::Parent]
    } else {
        seq![PathPart::Name(segment)]
    }
}

/// The components that parts between slashes stand for.
pub open spec fn segments_parts(segments: Seq<Seq<char>>) -> Seq<PathPart>
    decreases segments.len(),
{
    if segments.len() == 0 {
        Seq::empty()
    } else {
        segments_parts(segments.drop_last()) + segment_parts(segments.last())
    }
}

/// Names as components of a path.
pub open spec fn name_parts(names: Seq<Seq<char>>) -> Seq<PathPart> {
    names.map_values(|name: Seq<char>| PathPart::Name(name))
}

/// Whether components begin with a prefix.
pub open spec fn has_prefix(parts: Seq<PathPart>) -> bool {
    parts.len() > 0 && parts[0] is Prefix
}

/// Whether a character separates components on some system.
pub open spec fn is_separator(c: char) -> bool {
    c == '/' || c == '\\'
}

/// Whether a text begins with two characters that separate components on some system.
pub open spec fn begins_doubled(text: Seq<char>) -> bool {
    text.len() > 1 && is_separator(text[0]) && is_separator(text[1])
}

/// Whether a text begins with a slash.
pub open spec fn begins_rooted(text: Seq<char>) -> bool {
    text.len() > 0 && text[0] == '/'
}

/// Whether a path lies on a share of another machine: it begins with two separators, and the name
/// of the machine and that of the share after them are a prefix. Prefixes that begin with a
/// question mark or a dot are other ones.
pub open spec fn is_on_share(path: PathBuf) -> bool {
    let text = path_text(path);
    &&& has_prefix(path_parts(path))
    &&& begins_doubled(text)
    &&& text.len() > 2 && text[2] != '?' && text[2] != '.'
}

/// Whether names that are added to a path one after another become its last components on every
/// system. At two separators a name may instead complete the address of a share, and a backslash
/// alone becomes such a beginning where it is a name itself.
pub open spec fn takes_names(base: PathBuf) -> bool {
    let text = path_text(base);
    ||| is_on_share(base)
    ||| !begins_doubled(text) && (text.len() > 0 ==> text[0] != '\\')
}

/// Whether a path keeps its text when something is joined to it. One that begins with two
/// backslashes and a question mark is put together anew on some systems, and two backslashes alone
/// may become such a beginning.
pub open spec fn keeps_text(text: Seq<char>) -> bool {
    !(text.len() > 1 && text[0] == '\\' && text[1] == '\\' && (text.len() == 2 || text[2] == '?'))
}

/// Whether a text is another with a tail after it, and with the separator of some system between
/// them. None stands after an empty text or a slash, none need stand after a backslash or a drive,
/// and else there is one.
pub open spec fn is_appended(whole: Seq<char>, base: Seq<char>, tail: Seq<char>) -> bool {
    ||| {
        &&& whole == base + tail
        &&& base.len() == 0 || is_separator(base.last()) || (base.len() == 2 && base[1] == ':')
    }
    ||| whole == base.push('/') + tail && base.len() > 0 && base.last() != '/'
    ||| whole == base.push('\\') + tail && base.len() > 0 && !is_separator(base.last())
}

/// Whether a text is another with names after it, one after the other.
pub open spec fn is_text_below(text: Seq<char>, base: Seq<char>, names: Seq<Seq<char>>) -> bool
    decreases names.len(),
{
    if names.len() == 0 {
        text == base
    } else {
        exists|middle: Seq<char>|
            is_text_below(middle, base, names.drop_last()) && #[trigger] is_appended(
                text,
                middle,
                names.last(),
            )
    }
}

/// Whether a path is that of names below another, each in the one before: by its text, where the
/// other path keeps its own, and by its components, where the other path takes names.
pub open spec fn is_below(path: PathBuf, base: PathBuf, names: Seq<Seq<char>>) -> bool {
    &&& keeps_text(path_text(base)) ==> keeps_text(path_text(path)) && is_text_below(
        path_text(path),
        path_text(base),
        names,
    )
    &&& takes_names(base) ==> takes_names(path) && path_parts(path) == path_parts(base)
        + name_parts(names)
}

/// Whether a path is another without its last component. Its text begins that of the other, so
/// that it takes names where the other does.
pub open spec fn is_parent(parent: PathBuf, path: PathBuf) -> bool {
    &&& has_parent(path_parts(path))
    &&& path_parts(parent) == path_parts(path).drop_last()
    &&& path_text(parent).len() <= path_text(path).len()
    &&& path_text(parent) == path_text(path).take(path_text(parent).len() as int)
    &&& takes_names(path) ==> takes_names(parent)
}

/// Whether a path is that of names below the parent of another, each in the one before.
pub open spec fn is_beside(path: PathBuf, other: PathBuf, names: Seq<Seq<char>>) -> bool {
    exists|parent: PathBuf| #[trigger] is_parent(parent, other) && is_below(path, parent, names)
}

/// Whether joining a text to a path gives the same components on every system: the text holds
/// neither a backslash nor a colon and does not begin with two slashes. After a slash at its
/// beginning only the prefix of the path stays; else the path takes names, and a dot at the
/// beginning of the text is not at the beginning of the result.
pub open spec fn joins_alike(base: PathBuf, text: Seq<char>) -> bool {
    let parts = path_parts(base);
    &&& forall|i: int| 0 <= i < text.len() ==> #[trigger] text[i] != '\\' && text[i] != ':'
    &&& !begins_doubled(text)
    &&& if begins_rooted(text) {
        takes_names(base) || !has_prefix(parts)
    } else {
        takes_names(base) && (segments(text)[0] == "."@ ==> parts.len() > 0 && !(
        parts.last() is Prefix))
    }
}

/// The components of a path with a text joined to it, where that is the same on every system.
pub open spec fn joined_parts(base: Seq<PathPart>, text: Seq<char>) -> Seq<PathPart> {
    if !begins_rooted(text) {
        base + segments_parts(segments(text))
    } else if has_prefix(base) {
        seq![base[0], PathPart::Root] + segments_parts(segments(text))
    } else {
        seq![PathPart::Root] + segments_parts(segments(text))
    }
}

/// Whether a text is relative on every system: it begins with no separator and with no drive.
pub open spec fn is_relative(text: Seq<char>) -> bool {
    &&& text.len() > 0 ==> !is_separator(text[0])
    &&& text.len() > 1 ==> text[1] != ':'
}

/// Whether a path is what joining a text to another gives: by its components, where the systems
/// agree on them; by its text, where the text joined is relative and the other path keeps its own;
/// and by the text joined alone, where that begins with a slash and the other path has no prefix.
pub open spec fn is_joined(path: PathBuf, base: PathBuf, text: Seq<char>) -> bool {
    &&& joins_alike(base, text) ==> path_parts(path) == joined_parts(path_parts(base), text)
    &&& joins_alike(base, text) && takes_names(base) ==> takes_names(path)
    &&& is_relative(text) && keeps_text(path_text(base)) ==> is_appended(
        path_text(path),
        path_text(base),
        text,
    )
    &&& begins_rooted(text) && !has_prefix(path_parts(base)) ==> path_text(path) == text
}

/// Calls `Path::join`. A relative text is written after the path, with a separator between them
/// where one is needed, and its parts between slashes become the last components. A text that
/// begins with a slash replaces all but the prefix. Where the systems differ, [`is_joined`] says
/// nothing.
#[verifier::external_body]
pub(crate) fn joined_path(base: &PathBuf, text: &str) -> (path: PathBuf)
    ensures
        is_joined(path, *base, text@),
{
    base.join(text)
}

/// The name of the directory that backends are kept in is a plain one.
pub proof fn lemma_plain_backends()
    ensures
        is_plain_name("backends"@),
{
    reveal_strlit("backends");
    lemma_plain_name("backends"@);
}

proof fn lemma_one_segment(current: Seq<char>, text: Seq<char>)
    requires
        forall|i: int| 0 <= i < text.len() ==> is_name_char(#[trigger] text[i]),
    ensures
        segments_after(current, text) == seq![current + text],
    decreases text.len(),
{
    if text.len() == 0 {
        assert(current + text =~= current);
    } else {
        assert(is_name_char(text[0]));
        let rest = text.drop_first();
        assert forall|i: int| 0 <= i < rest.len() implies is_name_char(#[trigger] rest[i]) by {
            assert(is_name_char(text[i + 1]));
        }
        lemma_one_segment(current.push(text[0]), rest);
        assert(current.push(text[0]) + rest =~= current + text);
    }
}

/// The file or directory of a plain name in a directory.
pub fn entry_path(base: &PathBuf, name: &str) -> (path: PathBuf)
    requires
        is_plain_name(name@),
    ensures
        is_below(path, *base, seq![name@]),
{
    proof {
        assert(is_name_char(name@[0]));
        assert(name@.len() > 1 ==> is_name_char(name@[1]));
        assert forall|i: int| 0 <= i < name@.len() implies #[trigger] name@[i] != '\\' && name@[i]
            != ':' by {
            assert(is_name_char(name@[i]));
        }
        lemma_one_segment(Seq::empty(), name@);
        assert(Seq::<char>::empty() + name@ =~= name@);
        assert(segments(name@).drop_last() =~= Seq::empty());
        assert(segments_parts(segments(name@).drop_last()) =~= Seq::empty());
        assert(segments_parts(segments(name@)) =~= name_parts(seq![name@]));
    }
    let path = joined_path(base, name);
    proof {
        if keeps_text(path_text(*base)) {
            lemma_one_name(path_text(path), path_text(*base), name@);
        }
    }
    path
}

proof fn lemma_one_name(whole: Seq<char>, base: Seq<char>, name: Seq<char>)
    requires
        keeps_text(base),
        is_plain_name(name),
        is_appended(whole, base, name),
    ensures
        keeps_text(whole),
        is_text_below(whole, base, seq![name]),
{
    assert(is_name_char(name[0]));
    assert(seq![name].drop_last() =~= Seq::empty());
    reveal_with_fuel(is_text_below, 2);
    assert(is_appended(whole, base, seq![name].last()));
    if base.len() > 0 {
        assert(whole[0] == base[0]);
        if base.len() > 1 {
            assert(whole[1] == base[1]);
            if base.len() > 2 {
                assert(whole[2] == base[2]);
            }
        } else if whole == base + name {
            assert(whole[1] == name[0]);
        } else if whole == base.push('/') + name {
            assert(whole[1] == '/');
        } else {
            assert(whole[1] == '\\');
        }
    } else {
        assert(whole =~= name);
    }
}

proof fn lemma_text_below_below(
    text: Seq<char>,
    middle: Seq<char>,
    base: Seq<char>,
    upper: Seq<Seq<char>>,
    lower: Seq<Seq<char>>,
)
    requires
        is_text_below(middle, base, upper),
        is_text_below(text, middle, lower),
    ensures
        is_text_below(text, base, upper + lower),
    decreases lower.len(),
{
    if lower.len() == 0 {
        assert(upper + lower =~= upper);
    } else {
        let before = lemma_last_name(text, middle, lower);
        lemma_text_below_below(before, middle, base, upper, lower.drop_last());
        assert((upper + lower).drop_last() =~= upper + lower.drop_last());
        assert((upper + lower).last() == lower.last());
    }
}

/// What is below a path that is below another is below the other.
pub proof fn lemma_below_below(
    path: PathBuf,
    middle: PathBuf,
    base: PathBuf,
    upper: Seq<Seq<char>>,
    lower: Seq<Seq<char>>,
)
    requires
        is_below(middle, base, upper),
        is_below(path, middle, lower),
    ensures
        is_below(path, base, upper + lower),
{
    if keeps_text(path_text(base)) {
        lemma_text_below_below(
            path_text(path),
            path_text(middle),
            path_text(base),
            upper,
            lower,
        );
    }
    assert(name_parts(upper + lower) =~= name_parts(upper) + name_parts(lower));
    assert(path_parts(base) + name_parts(upper) + name_parts(lower) =~= path_parts(base)
        + name_parts(upper + lower));
}

proof fn lemma_last_name(text: Seq<char>, base: Seq<char>, names: Seq<Seq<char>>) -> (before: Seq<
    char,
>)
    requires
        names.len() > 0,
        is_text_below(text, base, names),
    ensures
        is_text_below(before, base, names.drop_last()),
        is_appended(text, before, names.last()),
{
    choose|before: Seq<char>|
        is_text_below(before, base, names.drop_last()) && #[trigger] is_appended(
            text,
            before,
            names.last(),
        )
}

/// Before the last of three names stand the one before it and a separator.
pub proof fn lemma_last_two(text: Seq<char>, base: Seq<char>, names: Seq<Seq<char>>)
    requires
        names.len() == 3,
        is_plain_name(names[0]),
        is_plain_name(names[1]),
        is_text_below(text, base, names),
    ensures
        text.len() > names[2].len() + 1,
        text[text.len() - names[2].len() - 2] == names[1].last(),
{
    let two = lemma_last_name(text, base, names);
    let one = lemma_last_name(two, base, names.drop_last());
    let none = lemma_last_name(one, base, names.drop_last().drop_last());
    assert(is_name_char(names[0].last()));
    assert(is_name_char(names[1].last()));
    assert(one.len() > 0 && one.last() == names[0].last());
    assert(two.len() > 0 && two.last() == names[1].last());
    assert(text.len() == two.len() + 1 + names[2].len());
    assert(text[two.len() - 1] == two.last());
}

/// Calls `Path::parent`: the path without its last component, unless it is empty or ends in a
/// root or a prefix. The parent is a beginning of the path.
#[verifier::external_body]
pub(crate) fn parent_path(path: &PathBuf) -> (parent: Option<PathBuf>)
    ensures
        match parent {
            Some(parent) => is_parent(parent, *path),
            None => !has_parent(path_parts(*path)),
        },
{
    path.parent().map(|parent| parent.to_path_buf())
}

/// Calls `<PathBuf as PartialEq>::eq`: paths are equal where their components are.
#[verifier::external_body]
pub(crate) fn same_path(left: &PathBuf, right: &PathBuf) -> (same: bool)
    ensures
        same == (path_parts(*left) == path_parts(*right)),
{
    left == right
}

/// Whether a path with these components has a parent.
pub open spec fn has_parent(parts: Seq<PathPart>) -> bool {
    &&& parts.len() > 0
    &&& !(parts.last() is Root)
    &&& !(parts.last() is Prefix)
}

/// Calls `PathBuf::from` on a text. The path is shown by that text.
#[verifier::external_body]
pub(crate) fn path_from(text: &str) -> (path: PathBuf)
    ensures
        path_text(path) == text@,
{
    PathBuf::from(text)
}

} // verus!
