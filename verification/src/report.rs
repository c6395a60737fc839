//! Accumulator for the violation messages produced during one validation
//! pass. The report keeps the messages as an ordered list, so every problem
//! is visible in one run, and can render them as one aggregated diagnostic.

use vstd::prelude::*;

verus! {

/// The text obtained by writing the messages out one after another, in
/// order, with nothing between them (each message carries its own line
/// terminator).
pub open spec fn aggregate_of(msgs: Seq<Seq<char>>) -> Seq<char>
    decreases msgs.len(),
{
    if msgs.len() == 0 {
        Seq::<char>::empty()
    } else {
        aggregate_of(msgs.drop_last()) + msgs.last()
    }
}

/// Ordered list of the violation sentences found during one validation pass.
pub struct ValidationReport {
    pub messages: Vec<String>,
}

impl View for ValidationReport {
    type V = Seq<Seq<char>>;

    open spec fn view(&self) -> Seq<Seq<char>> {
        self.messages@.map_values(|m: String| m@)
    }
}

impl ValidationReport {
    /// A fresh report with no violations.
    pub fn new() -> (r: ValidationReport)
        ensures
            r@ == Seq::<Seq<char>>::empty(),
    {
        let r = ValidationReport { messages: Vec::new() };
        proof {
            assert(r@ =~= Seq::<Seq<char>>::empty());
        }
        r
    }

    /// Appends one violation sentence at the end of the report.
    pub fn add_violation(&mut self, message: String)
        ensures
            final(self)@ == old(self)@.push(message@),
    {
        let ghost m: Seq<char> = message@;
        self.messages.push(message);
        proof {
            assert(self@ =~= old(self)@.push(m));
        }
    }

    /// How many violations were collected.
    pub fn len(&self) -> (n: usize)
        ensures
            n == self@.len(),
    {
        self.messages.len()
    }

    /// Whether the validation pass found any violation at all.
    pub fn has_violations(&self) -> (r: bool)
        ensures
            r == (self@.len() > 0),
    {
        self.messages.len() > 0
    }

    /// Renders the whole report as one diagnostic text: the messages in
    /// order, each carrying its own terminator.
    pub fn aggregate(&self) -> (r: String)
        ensures
            r@ == aggregate_of(self@),
    {
        let mut acc = String::new();
        let mut i: usize = 0;
        proof {
            assert(self@.take(0) =~= Seq::<Seq<char>>::empty());
        }
        while i < self.messages.len()
            invariant
                i <= self.messages.len(),
                self@.len() == self.messages@.len(),
                acc@ == aggregate_of(self@.take(i as int)),
            decreases self.messages.len() - i,
        {
            acc.append(self.messages[i].as_str());
            proof {
                let taken = self@.take(i as int + 1);
                assert(taken.drop_last() =~= self@.take(i as int));
                assert(taken.last() == self@[i as int]);
            }
            i = i + 1;
        }
        proof {
            assert(self@.take(self.messages@.len() as int) =~= self@);
        }
        acc
    }
}

} // verus!
