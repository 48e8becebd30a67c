//! The command to run, with its arguments.

use crate::texts::to_owned_texts;
use vstd::prelude::*;
use vstd::string::StringExecFns;

verus! {

/// A command and the arguments it is run with.
#[derive(Clone, Debug, PartialEq, Eq)]
pub struct Incantation {
    pub command: String,
    pub args: Vec<String>,
}

/// The mathematical content of an [`Incantation`].
pub struct IncantationView {
    pub command: Seq<char>,
    pub args: Seq<Seq<char>>,
}

impl View for Incantation {
    type V = IncantationView;

    open spec fn view(&self) -> IncantationView {
        IncantationView { command: self.command@, args: self.args.deep_view() }
    }
}

/// The words joined by single spaces.
pub open spec fn joined(words: Seq<Seq<char>>) -> Seq<char>
    decreases words.len(),
{
    if words.len() == 0 {
        Seq::<char>::empty()
    } else if words.len() == 1 {
        words[0]
    } else {
        joined(words.drop_last()) + seq![' '] + words.last()
    }
}

/// The invocation as one line: the command, a space, and the arguments
/// joined by spaces.
pub open spec fn invocation_text(incantation: IncantationView) -> Seq<char> {
    incantation.command + seq![' '] + joined(incantation.args)
}

impl Incantation {
    pub fn new(command: &str, args: Vec<&str>) -> (incantation: Incantation)
        ensures
            incantation@.command == command@,
            incantation@.args == args.deep_view(),
    {
        let owned = to_owned_texts(&args);
        Incantation { command: String::from_str(command), args: owned }
    }

    /// The invocation as one line of text.
    pub fn to_string(&self) -> (text: String)
        ensures
            text@ == invocation_text(self@),
    {
        let mut text = self.command.clone();
        text.append(" ");
        proof {
            reveal_strlit(" ");
        }
        let ghost words = self.args.deep_view();
        let mut i: usize = 0;
        while i < self.args.len()
            invariant
                i <= self.args.len(),
                words == self.args.deep_view(),
                text@ == self.command@ + seq![' '] + joined(words.take(i as int)),
            decreases self.args.len() - i,
        {
            if i > 0 {
                text.append(" ");
            }
            text.append(self.args[i].as_str());
            proof {
                reveal_strlit(" ");
                let before = words.take(i as int);
                let now = words.take(i + 1);
                assert(now.drop_last() =~= before);
                assert(now.last() == self.args[i as int]@);
                assert(text@ =~= self.command@ + seq![' '] + joined(now));
            }
            i += 1;
        }
        assert(words.take(i as int) =~= words);
        text
    }
}

} // verus!
