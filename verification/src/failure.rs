//! Failures, with what led to them.

use crate::text::chars::same_text;
use crate::text::space::{join, joined, views};
use vstd::prelude::*;

verus! {

/// What went wrong, and what led to it.
#[derive(Debug, Clone)]
pub struct Failure {
    pub message: String,
    /// What led to it, the nearest first.
    pub causes: Vec<String>,
}

impl View for Failure {
    type V = Seq<Seq<char>>;

    /// The messages, the outermost first.
    open spec fn view(&self) -> Seq<Seq<char>> {
        seq![self.message@] + views(self.causes@)
    }
}

/// The messages without those that repeat the one before.
pub open spec fn without_repeats(messages: Seq<Seq<char>>) -> Seq<Seq<char>>
    decreases messages.len(),
{
    if messages.len() <= 1 {
        messages
    } else if messages.last() == messages[messages.len() - 2] {
        without_repeats(messages.drop_last())
    } else {
        without_repeats(messages.drop_last()).push(messages.last())
    }
}

/// The messages in one line.
pub open spec fn chain_text(messages: Seq<Seq<char>>) -> Seq<char> {
    join(without_repeats(messages), ": "@)
}

/// The messages of an error and of those under it, the outermost first, in one line.
pub fn format_error_chain(messages: &[String]) -> (line: String)
    ensures
        line@ == chain_text(views(messages@)),
{
    let ghost all = views(messages@);
    let mut kept: Vec<String> = Vec::new();
    for i in 0..messages.len()
        invariant
            all == views(messages@),
            views(kept@) == without_repeats(all.take(i as int)),
    {
        let ghost before = views(kept@);
        proof {
            assert(all.take(i + 1).drop_last() =~= all.take(i as int));
            assert(all.take(i + 1).last() == messages@[i as int]@);
            if i > 0 {
                assert(all.take(i + 1)[i - 1] == messages@[i - 1]@);
            }
        }
        if i == 0 || !same_text(messages[i].as_str(), messages[i - 1].as_str()) {
            kept.push(messages[i].clone());
            proof {
                assert(views(kept@) =~= before.push(messages@[i as int]@));
                if i == 0 {
                    assert(all.take(1) =~= seq![messages@[0]@]);
                    assert(before =~= Seq::empty());
                    assert(views(kept@) =~= all.take(1));
                }
            }
        }
    }
    proof {
        assert(all.take(messages.len() as int) =~= all);
    }
    joined(&kept, ": ")
}

impl Failure {
    /// A failure that nothing led to.
    pub fn new(message: String) -> (failure: Failure)
        ensures
            failure.message == message,
            failure@ == seq![message@],
    {
        let failure = Failure { message, causes: Vec::new() };
        proof {
            assert(failure@ =~= seq![message@]);
        }
        failure
    }

    /// A failure that something led to.
    pub fn because(message: String, cause: String) -> (failure: Failure)
        ensures
            failure.message == message,
            failure@ == seq![message@, cause@],
    {
        let mut causes: Vec<String> = Vec::new();
        causes.push(cause);
        let failure = Failure { message, causes };
        proof {
            assert(failure@ =~= seq![message@, cause@]);
        }
        failure
    }

    /// The failure of what this one led to.
    pub fn under(self, message: String) -> (failure: Failure)
        ensures
            failure.message == message,
            failure@ == seq![message@] + self@,
    {
        let mut causes = self.causes;
        causes.insert(0, self.message);
        let failure = Failure { message, causes };
        proof {
            assert(views(causes@) =~= self@);
        }
        failure
    }

    /// The same failure.
    pub fn copied(&self) -> (copy: Failure)
        ensures
            copy@ == self@,
    {
        let mut causes: Vec<String> = Vec::new();
        for i in 0..self.causes.len()
            invariant
                views(causes@) == views(self.causes@).take(i as int),
        {
            let ghost before = views(causes@);
            causes.push(self.causes[i].clone());
            proof {
                assert(views(causes@) =~= before.push(self.causes@[i as int]@));
            }
        }
        proof {
            assert(views(self.causes@).take(self.causes.len() as int) =~= views(self.causes@));
        }
        Failure { message: self.message.clone(), causes }
    }

    /// What went wrong and what led to it, in one line.
    pub fn format_chain(&self) -> (line: String)
        ensures
            line@ == chain_text(self@),
    {
        let mut messages: Vec<String> = Vec::new();
        messages.push(self.message.clone());
        for i in 0..self.causes.len()
            invariant
                views(messages@) == seq![self.message@] + views(self.causes@).take(i as int),
        {
            let ghost before = views(messages@);
            messages.push(self.causes[i].clone());
            proof {
                assert(views(messages@) =~= before.push(self.causes@[i as int]@));
            }
        }
        proof {
            assert(views(messages@) =~= self@);
        }
        format_error_chain(&messages)
    }
}

/// No message of a chain repeats the one before it, so that writing the chain again changes
/// nothing.
pub proof fn law_no_message_repeats(messages: Seq<Seq<char>>)
    ensures
        forall|i: int|
            0 <= i < without_repeats(messages).len() - 1 ==> #[trigger] without_repeats(messages)[i]
                != without_repeats(messages)[i + 1],
        without_repeats(without_repeats(messages)) == without_repeats(messages),
{
    lemma_repeats(messages);
    lemma_nothing_to_drop(without_repeats(messages));
}

proof fn lemma_repeats(messages: Seq<Seq<char>>)
    ensures
        forall|i: int|
            0 <= i < without_repeats(messages).len() - 1 ==> #[trigger] without_repeats(messages)[i]
                != without_repeats(messages)[i + 1],
        messages.len() > 0 ==> without_repeats(messages).len() > 0 && without_repeats(
            messages,
        ).last() == messages.last(),
    decreases messages.len(),
{
    if messages.len() > 1 {
        lemma_repeats(messages.drop_last());
    }
}

proof fn lemma_nothing_to_drop(messages: Seq<Seq<char>>)
    requires
        forall|i: int|
            0 <= i < messages.len() - 1 ==> #[trigger] messages[i] != messages[i + 1],
    ensures
        without_repeats(messages) == messages,
    decreases messages.len(),
{
    if messages.len() > 1 {
        let front = messages.drop_last();
        assert forall|i: int| 0 <= i < front.len() - 1 implies #[trigger] front[i] != front[i
            + 1] by {
            assert(messages[i] != messages[i + 1]);
        }
        lemma_nothing_to_drop(front);
        assert(messages[messages.len() - 2] != messages[messages.len() - 2 + 1]);
        assert(front.push(messages.last()) =~= messages);
    }
}

} // verus!
