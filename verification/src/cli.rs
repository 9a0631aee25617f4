//! Which mode a command line asks for.

use vstd::prelude::*;
use vstd::string::*;

verus! {

/// What the tool was called to do.
#[derive(Debug, PartialEq, Eq)]
pub enum Invocation {
    /// Run `command`, the program first and then its arguments, and report
    /// how it went.
    Launch { command: Vec<String> },
    /// Watch the process that the flags name.
    Watch,
}

/// The word that stands in front of a command to launch.
pub open spec fn separator() -> Seq<char> {
    "--"@
}

/// Whether `at` is the place of the first separator among `words`.
pub open spec fn is_first_separator(words: Seq<Seq<char>>, at: int) -> bool {
    &&& 0 <= at < words.len()
    &&& words[at] == separator()
    &&& forall|i: int| 0 <= i < at ==> #[trigger] words[i] != separator()
}

/// Whether `mode` is what the command line `words` asks for: to launch what
/// follows the first separator, word for word, or to watch where no word is
/// a separator.
pub open spec fn selects(words: Seq<Seq<char>>, mode: Invocation) -> bool {
    match mode {
        Invocation::Launch { command } => exists|at: int| #[trigger]
            is_first_separator(words, at) && command.deep_view() == words.skip(at + 1),
        Invocation::Watch => forall|i: int|
            0 <= i < words.len() ==> #[trigger] words[i] != separator(),
    }
}

/// A command line asks for one mode only: two modes that it selects are both
/// to watch, or both to launch the same command.
pub proof fn lemma_selects_one(words: Seq<Seq<char>>, one: Invocation, other: Invocation)
    requires
        selects(words, one),
        selects(words, other),
    ensures
        one is Watch <==> other is Watch,
        one is Launch ==> one->command.deep_view() == other->command.deep_view(),
{
    if one is Launch {
        let at = choose|at: int| #[trigger]
            is_first_separator(words, at) && one->command.deep_view() == words.skip(at + 1);
        if other is Launch {
            let also = choose|at: int| #[trigger]
                is_first_separator(words, at) && other->command.deep_view() == words.skip(
                    at + 1,
                );
            if at < also {
                assert(words[at] != separator());
            } else if also < at {
                assert(words[also] != separator());
            }
        } else {
            assert(words[at] != separator());
        }
    } else if other is Launch {
        let also = choose|at: int| #[trigger]
            is_first_separator(words, at) && other->command.deep_view() == words.skip(at + 1);
        assert(words[also] != separator());
    }
}

/// The words of `words` from place `from` on.
fn tail(words: &Vec<String>, from: usize) -> (rest: Vec<String>)
    requires
        from <= words.len(),
    ensures
        rest.deep_view() == words.deep_view().skip(from as int),
{
    let mut rest: Vec<String> = Vec::new();
    let mut next: usize = from;
    while next < words.len()
        invariant
            from <= next <= words.len(),
            rest.deep_view() == words.deep_view().subrange(from as int, next as int),
        decreases words.len() - next,
    {
        let ghost before = rest.deep_view();
        rest.push(words[next].clone());
        next = next + 1;
        proof {
            let wanted = words.deep_view().subrange(from as int, next as int);
            assert forall|i: int| 0 <= i < wanted.len() implies rest.deep_view()[i] == wanted[i] by {
                if i < before.len() {
                    assert(rest.deep_view()[i] == before[i]);
                }
            }
            assert(before.len() == next - 1 - from);
            assert(rest.deep_view() =~= wanted);
        }
    }
    assert(rest.deep_view() =~= words.deep_view().skip(from as int));
    rest
}

/// Reads the mode off the raw command line, the program's own name
/// included: the words behind the first `--` are a command to launch, taken
/// as they are; a command line without `--` asks to watch.
pub fn select(raw_args: &Vec<String>) -> (mode: Invocation)
    ensures
        selects(raw_args.deep_view(), mode),
{
    let mark = String::from_str("--");
    let mut at: usize = 0;
    while at < raw_args.len()
        invariant
            at <= raw_args.len(),
            mark@ == separator(),
            forall|i: int| 0 <= i < at ==> #[trigger] raw_args.deep_view()[i] != separator(),
        decreases raw_args.len() - at,
    {
        if raw_args[at] == mark {
            let command = tail(raw_args, at + 1);
            assert(is_first_separator(raw_args.deep_view(), at as int));
            return Invocation::Launch { command };
        }
        at = at + 1;
    }
    Invocation::Watch
}

} // verus!
