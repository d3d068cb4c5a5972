//! Command lines: splitting one into arguments, and writing arguments as one.

use crate::text::chars::{chars_of, text_of};
use crate::text::space::{is_space, is_space_char, join, joined, views};
use vstd::prelude::*;

verus! {

/// What has been read of a command line.
#[verifier::ext_equal]
pub struct Reading {
    pub done: Seq<Seq<char>>,
    /// The argument being read.
    pub current: Seq<char>,
    /// The quotation mark that has been opened.
    pub quote: Option<char>,
    /// Whether the character before was a backslash that still counts.
    pub escape: bool,
}

/// The state before anything is read.
pub open spec fn nothing_read() -> Reading {
    Reading { done: Seq::empty(), current: Seq::empty(), quote: None, escape: false }
}

/// The state after one more character.
pub open spec fn read_char(state: Reading, c: char) -> Reading {
    if state.escape {
        Reading { current: state.current.push(c), escape: false, ..state }
    } else if c == '\\' {
        Reading { escape: true, ..state }
    } else if state.quote is Some {
        if c == state.quote->0 {
            Reading { quote: None, ..state }
        } else {
            Reading { current: state.current.push(c), ..state }
        }
    } else if c == '\'' || c == '"' {
        Reading { quote: Some(c), ..state }
    } else if is_space(c) {
        if state.current.len() > 0 {
            Reading { done: state.done.push(state.current), current: Seq::empty(), ..state }
        } else {
            state
        }
    } else {
        Reading { current: state.current.push(c), ..state }
    }
}

/// The state after a text.
pub open spec fn read_text(state: Reading, text: Seq<char>) -> Reading
    decreases text.len(),
{
    if text.len() == 0 {
        state
    } else {
        read_char(read_text(state, text.drop_last()), text.last())
    }
}

/// The arguments that have been read when the command line ends.
pub open spec fn all_read(state: Reading) -> Seq<Seq<char>> {
    if state.current.len() > 0 {
        state.done.push(state.current)
    } else {
        state.done
    }
}

/// The arguments of a command line. White space separates them; quotation marks hold white space
/// in, and a backslash takes the next character as it is, inside quotation marks too. An empty
/// argument is no argument.
pub open spec fn arguments(text: Seq<char>) -> Seq<Seq<char>> {
    all_read(read_text(nothing_read(), text))
}

/// The arguments of a command line.
pub fn split_args(input: &str) -> (args: Vec<String>)
    ensures
        views(args@) == arguments(input@),
{
    let chars = chars_of(input);
    let mut args: Vec<String> = Vec::new();
    let mut current: Vec<char> = Vec::new();
    let mut quote: Option<char> = None;
    let mut escape = false;
    proof {
        assert(read_text(nothing_read(), input@.take(0)) == nothing_read());
        assert(views(args@) =~= Seq::empty());
    }
    for i in 0..chars.len()
        invariant
            chars@ == input@,
            read_text(nothing_read(), input@.take(i as int)) == (Reading {
                done: views(args@),
                current: current@,
                quote,
                escape,
            }),
    {
        let c = chars[i];
        let ghost before = views(args@);
        proof {
            assert(input@.take(i + 1).drop_last() =~= input@.take(i as int));
        }
        if escape {
            current.push(c);
            escape = false;
        } else if c == '\\' {
            escape = true;
        } else if quote.is_some() {
            if Some(c) == quote {
                quote = None;
            } else {
                current.push(c);
            }
        } else if c == '\'' || c == '"' {
            quote = Some(c);
        } else if is_space_char(c) {
            if current.len() > 0 {
                args.push(text_of(&current));
                proof {
                    assert(views(args@) =~= before.push(current@));
                }
                current = Vec::new();
            }
        } else {
            current.push(c);
        }
    }
    proof {
        assert(input@.take(chars.len() as int) =~= input@);
    }
    if current.len() > 0 {
        let ghost before = views(args@);
        args.push(text_of(&current));
        proof {
            assert(views(args@) =~= before.push(current@));
        }
    }
    args
}

/// Whether a character needs no quotation marks.
pub open spec fn is_bare(c: char) -> bool {
    ||| 'a' <= c <= 'z'
    ||| 'A' <= c <= 'Z'
    ||| '0' <= c <= '9'
    ||| c == '-'
    ||| c == '_'
    ||| c == '.'
    ||| c == '/'
    ||| c == ':'
    ||| c == '='
    ||| c == '+'
}

fn is_bare_char(c: char) -> (r: bool)
    ensures
        r == is_bare(c),
{
    ('a' <= c && c <= 'z') || ('A' <= c && c <= 'Z') || ('0' <= c && c <= '9') || c == '-' || c
        == '_' || c == '.' || c == '/' || c == ':' || c == '=' || c == '+'
}

/// Whether an argument needs no quotation marks.
pub open spec fn all_bare(arg: Seq<char>) -> bool {
    forall|i: int| 0 <= i < arg.len() ==> is_bare(#[trigger] arg[i])
}

/// A character as it stands between single quotation marks.
pub open spec fn quoted_char(c: char) -> Seq<char> {
    if c == '\'' {
        seq!['\'', '\\', '\'', '\'']
    } else {
        seq![c]
    }
}

/// A text as it stands between single quotation marks.
pub open spec fn quoted_chars(arg: Seq<char>) -> Seq<char>
    decreases arg.len(),
{
    if arg.len() == 0 {
        Seq::empty()
    } else {
        quoted_chars(arg.drop_last()) + quoted_char(arg.last())
    }
}

/// An argument as a command line shows it.
pub open spec fn shown_argument(arg: Seq<char>) -> Seq<char> {
    if all_bare(arg) {
        arg
    } else {
        seq!['\''] + quoted_chars(arg) + seq!['\'']
    }
}

/// The arguments as a command line shows them.
pub open spec fn shown_arguments(args: Seq<Seq<char>>) -> Seq<Seq<char>> {
    args.map_values(|arg: Seq<char>| shown_argument(arg))
}

fn shown_arg(arg: &str) -> (shown: String)
    ensures
        shown@ == shown_argument(arg@),
{
    let chars = chars_of(arg);
    let mut bare = true;
    for i in 0..chars.len()
        invariant
            chars@ == arg@,
            bare == all_bare(arg@.take(i as int)),
    {
        proof {
            assert(arg@.take(i + 1)[i as int] == arg@[i as int]);
            assert forall|j: int| 0 <= j < i implies #[trigger] arg@.take(i as int)[j] == arg@.take(
                i + 1,
            )[j] by {}
        }
        if !is_bare_char(chars[i]) {
            bare = false;
        }
    }
    proof {
        assert(arg@.take(chars.len() as int) =~= arg@);
    }
    if bare {
        return text_of(&chars);
    }
    let mut shown: Vec<char> = Vec::new();
    shown.push('\'');
    for i in 0..chars.len()
        invariant
            chars@ == arg@,
            shown@ == seq!['\''] + quoted_chars(arg@.take(i as int)),
    {
        let ghost before = shown@;
        proof {
            assert(arg@.take(i + 1).drop_last() =~= arg@.take(i as int));
        }
        if chars[i] == '\'' {
            shown.push('\'');
            shown.push('\\');
            shown.push('\'');
            shown.push('\'');
        } else {
            shown.push(chars[i]);
        }
        proof {
            assert(shown@ =~= before + quoted_char(arg@[i as int]));
        }
    }
    shown.push('\'');
    text_of(&shown)
}

/// The arguments as one command line.
pub fn shell_join(args: &[String]) -> (line: String)
    ensures
        line@ == join(shown_arguments(views(args@)), " "@),
{
    let mut shown: Vec<String> = Vec::new();
    for i in 0..args.len()
        invariant
            views(shown@) == shown_arguments(views(args@)).take(i as int),
    {
        let ghost before = views(shown@);
        shown.push(shown_arg(args[i].as_str()));
        proof {
            assert(views(shown@) =~= before.push(shown_argument(args@[i as int]@)));
        }
    }
    proof {
        assert(shown_arguments(views(args@)).take(args.len() as int) =~= shown_arguments(
            views(args@),
        ));
    }
    joined(&shown, " ")
}

proof fn lemma_read_both(state: Reading, first: Seq<char>, second: Seq<char>)
    ensures
        read_text(state, first + second) == read_text(read_text(state, first), second),
    decreases second.len(),
{
    if second.len() == 0 {
        assert(first + second =~= first);
    } else {
        lemma_read_both(state, first, second.drop_last());
        assert((first + second).drop_last() =~= first + second.drop_last());
    }
}

proof fn lemma_read_bare(state: Reading, arg: Seq<char>)
    requires
        all_bare(arg),
        state.quote is None,
        !state.escape,
    ensures
        read_text(state, arg) == (Reading { current: state.current + arg, ..state }),
    decreases arg.len(),
{
    if arg.len() == 0 {
        assert(state.current + arg =~= state.current);
    } else {
        assert forall|i: int| 0 <= i < arg.drop_last().len() implies is_bare(
            #[trigger] arg.drop_last()[i],
        ) by {
            assert(is_bare(arg[i]));
        }
        lemma_read_bare(state, arg.drop_last());
        assert(is_bare(arg.last()));
        assert((state.current + arg.drop_last()).push(arg.last()) =~= state.current + arg);
    }
}

/// Whether a text holds no backslash.
pub open spec fn no_backslash(text: Seq<char>) -> bool {
    forall|i: int| 0 <= i < text.len() ==> #[trigger] text[i] != '\\'
}

proof fn lemma_read_quoted(state: Reading, arg: Seq<char>)
    requires
        no_backslash(arg),
        state.quote == Some('\''),
        !state.escape,
    ensures
        read_text(state, quoted_chars(arg)) == (Reading { current: state.current + arg, ..state }),
    decreases arg.len(),
{
    if arg.len() == 0 {
        assert(state.current + arg =~= state.current);
    } else {
        let c = arg.last();
        assert forall|i: int| 0 <= i < arg.drop_last().len() implies #[trigger] arg.drop_last()[i]
            != '\\' by {
            assert(arg[i] != '\\');
        }
        lemma_read_quoted(state, arg.drop_last());
        let middle = Reading { current: state.current + arg.drop_last(), ..state };
        lemma_read_both(state, quoted_chars(arg.drop_last()), quoted_char(c));
        reveal_with_fuel(read_text, 5);
        let all = quoted_char(c);
        if c == '\'' {
            assert(all.drop_last() =~= seq!['\'', '\\', '\'']);
            assert(all.drop_last().drop_last() =~= seq!['\'', '\\']);
            assert(all.drop_last().drop_last().drop_last() =~= seq!['\'']);
            assert(all.drop_last().drop_last().drop_last().drop_last() =~= Seq::<char>::empty());
        } else {
            assert(all.drop_last() =~= Seq::<char>::empty());
        }
        assert(middle.current.push(c) =~= state.current + arg);
    }
}

proof fn lemma_read_shown(state: Reading, arg: Seq<char>)
    requires
        no_backslash(arg),
        state.quote is None,
        !state.escape,
    ensures
        read_text(state, shown_argument(arg)) == (Reading { current: state.current + arg, ..state }),
{
    if all_bare(arg) {
        lemma_read_bare(state, arg);
    } else {
        let mark = seq!['\''];
        assert(mark.drop_last() =~= Seq::<char>::empty());
        reveal_with_fuel(read_text, 2);
        let open = Reading { quote: Some('\''), ..state };
        assert(read_text(state, mark) == open);
        lemma_read_quoted(open, arg);
        lemma_read_both(state, mark, quoted_chars(arg));
        lemma_read_both(state, mark + quoted_chars(arg), mark);
    }
}

proof fn lemma_read_shown_all(args: Seq<Seq<char>>)
    requires
        args.len() > 0,
        forall|i: int| 0 <= i < args.len() ==> (#[trigger] args[i]).len() > 0,
        forall|i: int| 0 <= i < args.len() ==> no_backslash(#[trigger] args[i]),
    ensures
        read_text(nothing_read(), join(shown_arguments(args), " "@)) == (Reading {
            done: args.drop_last(),
            current: args.last(),
            quote: None,
            escape: false,
        }),
    decreases args.len(),
{
    let shown = shown_arguments(args);
    let last = args.last();
    if args.len() == 1 {
        lemma_read_shown(nothing_read(), last);
        assert(Seq::<char>::empty() + last =~= last);
        assert(args.drop_last() =~= Seq::<Seq<char>>::empty());
        assert(join(shown, " "@) == shown[0]);
    } else {
        let front = args.drop_last();
        assert forall|i: int| 0 <= i < front.len() implies (#[trigger] front[i]).len() > 0 by {
            assert(args[i].len() > 0);
        }
        assert forall|i: int| 0 <= i < front.len() implies no_backslash(#[trigger] front[i]) by {
            assert(no_backslash(args[i]));
        }
        lemma_read_shown_all(front);
        assert(shown.drop_last() =~= shown_arguments(front));
        let before = join(shown_arguments(front), " "@);
        reveal_strlit(" ");
        assert(" "@ =~= seq![' ']);
        assert(" "@.drop_last() =~= Seq::<char>::empty());
        reveal_with_fuel(read_text, 2);
        lemma_read_both(nothing_read(), before, " "@);
        let middle = Reading { done: args.drop_last(), current: Seq::empty(), quote: None, escape: false };
        assert(front.drop_last().push(front.last()) =~= front);
        assert(read_text(nothing_read(), before + " "@) == middle);
        lemma_read_both(nothing_read(), before + " "@, shown_argument(last));
        lemma_read_shown(middle, last);
        assert(Seq::<char>::empty() + last =~= last);
        assert(shown.last() == shown_argument(last));
    }
}

/// Splitting what joining wrote gives the arguments back, but for empty ones, which leave no
/// trace, and for those that hold a backslash, which is read as an escape.
pub proof fn law_splitting_undoes_joining(args: Seq<Seq<char>>)
    requires
        forall|i: int| 0 <= i < args.len() ==> (#[trigger] args[i]).len() > 0,
        forall|i: int| 0 <= i < args.len() ==> no_backslash(#[trigger] args[i]),
    ensures
        arguments(join(shown_arguments(args), " "@)) == args,
{
    if args.len() == 0 {
        assert(join(shown_arguments(args), " "@) =~= Seq::<char>::empty());
        assert(args =~= Seq::<Seq<char>>::empty());
    } else {
        lemma_read_shown_all(args);
        assert(args.drop_last().push(args.last()) =~= args);
    }
}

/// No argument is empty.
pub proof fn law_arguments_are_not_empty(text: Seq<char>)
    ensures
        forall|i: int| 0 <= i < arguments(text).len() ==> (#[trigger] arguments(text)[i]).len() > 0,
{
    lemma_done_not_empty(text);
}

proof fn lemma_done_not_empty(text: Seq<char>)
    ensures
        forall|i: int|
            0 <= i < read_text(nothing_read(), text).done.len() ==> (#[trigger] read_text(
                nothing_read(),
                text,
            ).done[i]).len() > 0,
    decreases text.len(),
{
    if text.len() > 0 {
        lemma_done_not_empty(text.drop_last());
    }
}

} // verus!
