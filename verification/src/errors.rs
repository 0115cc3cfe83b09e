//! A chain of error messages: one top-level message followed by the
//! messages of its causes, outermost first.
//!
//! Failures of the persistence and transport collaborators reach the
//! workflows as plain rendered messages; the workflows wrap them with
//! human-readable context describing the step that failed. The chain is
//! rendered for the logs as the top message followed by one `Caused by:`
//! line per cause.

use vstd::prelude::*;

verus! {

/// A non-empty list of error messages, outermost context first.
pub struct ErrorChain {
    messages: Vec<String>,
}

/// Rendering of one cause within an error chain.
pub open spec fn spec_cause_line(message: Seq<char>) -> Seq<char> {
    "Caused by:\n\t"@ + message + "\n"@
}

/// Rendering of the causes of an error chain, in order.
pub open spec fn spec_cause_lines(messages: Seq<Seq<char>>) -> Seq<char>
    decreases messages.len(),
{
    if messages.len() == 0 {
        Seq::empty()
    } else {
        spec_cause_line(messages[0]) + spec_cause_lines(messages.skip(1))
    }
}

/// Rendering of a whole error chain: the top message, a blank line, then
/// one line per cause.
pub open spec fn spec_chain_rendering(messages: Seq<Seq<char>>) -> Seq<char>
    recommends
        messages.len() >= 1,
{
    messages[0] + "\n\n"@ + spec_cause_lines(messages.skip(1))
}

proof fn lemma_cause_lines_concat(a: Seq<Seq<char>>, b: Seq<Seq<char>>)
    ensures
        spec_cause_lines(a + b) == spec_cause_lines(a) + spec_cause_lines(b),
    decreases a.len(),
{
    if a.len() == 0 {
        assert(a + b =~= b);
        assert(spec_cause_lines(a) + spec_cause_lines(b) =~= spec_cause_lines(b));
    } else {
        assert((a + b).skip(1) =~= a.skip(1) + b);
        lemma_cause_lines_concat(a.skip(1), b);
        assert(spec_cause_line((a + b)[0]) + (spec_cause_lines(a.skip(1)) + spec_cause_lines(b))
            =~= (spec_cause_line(a[0]) + spec_cause_lines(a.skip(1))) + spec_cause_lines(b));
    }
}

proof fn lemma_cause_lines_push(messages: Seq<Seq<char>>, i: int)
    requires
        0 <= i < messages.len(),
    ensures
        spec_cause_lines(messages.take(i + 1)) == spec_cause_lines(messages.take(i))
            + spec_cause_line(messages[i]),
{
    let single = seq![messages[i]];
    assert(messages.take(i + 1) =~= messages.take(i) + single);
    lemma_cause_lines_concat(messages.take(i), single);
    assert(single.skip(1) =~= Seq::<Seq<char>>::empty());
    assert(spec_cause_lines(single.skip(1)) =~= Seq::<char>::empty());
    assert(spec_cause_lines(single) == spec_cause_line(single[0]) + spec_cause_lines(single.skip(1)));
    assert(spec_cause_line(messages[i]) + Seq::<char>::empty() =~= spec_cause_line(messages[i]));
}

impl View for ErrorChain {
    type V = Seq<Seq<char>>;

    closed spec fn view(&self) -> Seq<Seq<char>> {
        Seq::new(self.messages@.len(), |i: int| self.messages@[i]@)
    }
}

impl ErrorChain {
    /// An error chain holds at least its top-level message.
    pub open spec fn wf(&self) -> bool {
        self@.len() >= 1
    }

    /// A chain of a single message, with no recorded cause.
    pub fn new(message: String) -> (r: ErrorChain)
        ensures
            r@ =~= seq![message@],
    {
        let mut messages: Vec<String> = Vec::new();
        messages.push(message);
        ErrorChain { messages }
    }

    /// Wraps the chain with one more layer of context: the new message
    /// becomes the top-level message and everything already in the chain
    /// becomes its causes.
    pub fn context(self, message: String) -> (r: ErrorChain)
        ensures
            r@ =~= seq![message@] + self@,
    {
        let mut messages: Vec<String> = Vec::new();
        messages.push(message);
        let mut rest = self.messages;
        let ghost old_rest = rest@;
        let mut i: usize = 0;
        while i < rest.len()
            invariant
                rest@ == old_rest,
                i <= rest.len(),
                messages@.len() == i + 1,
                forall|j: int| 0 <= j < i ==> messages@[j + 1] == old_rest[j],
                messages@[0] == message,
            decreases rest.len() - i,
        {
            let m = rest[i].clone();
            messages.push(m);
            i = i + 1;
        }
        ErrorChain { messages }
    }

    /// The number of messages in the chain.
    pub fn len(&self) -> (n: usize)
        ensures
            n == self@.len(),
    {
        self.messages.len()
    }

    /// The message at the given depth: depth 0 is the top-level message,
    /// deeper entries are causes.
    pub fn message_at(&self, depth: usize) -> (m: &String)
        requires
            depth < self@.len(),
        ensures
            m@ == self@[depth as int],
    {
        &self.messages[depth]
    }
}

/// Renders an error chain for the logs: the top-level message, a blank
/// line, then each cause on a line of its own, outermost cause first.
pub fn error_chain_fmt(e: &ErrorChain) -> (r: String)
    requires
        e.wf(),
    ensures
        r@ == spec_chain_rendering(e@),
{
    let mut out = String::new();
    out.append(e.message_at(0).as_str());
    out.append("\n\n");
    let n = e.len();
    let mut i: usize = 1;
    proof {
        assert(e@.skip(1).take(0) =~= Seq::<Seq<char>>::empty());
        assert(out@ =~= e@[0] + "\n\n"@ + spec_cause_lines(e@.skip(1).take(0)));
    }
    while i < n
        invariant
            1 <= i <= n,
            n == e@.len(),
            e.wf(),
            out@ == e@[0] + "\n\n"@ + spec_cause_lines(e@.skip(1).take(i - 1)),
        decreases n - i,
    {
        out.append("Caused by:\n\t");
        out.append(e.message_at(i).as_str());
        out.append("\n");
        proof {
            lemma_cause_lines_push(e@.skip(1), i - 1);
            assert(e@.skip(1)[i - 1] == e@[i as int]);
            assert(out@ =~= e@[0] + "\n\n"@ + spec_cause_lines(e@.skip(1).take(i as int)));
        }
        i = i + 1;
    }
    proof {
        assert(e@.skip(1).take(n - 1) =~= e@.skip(1));
    }
    out
}

} // verus!
