use vstd::prelude::*;

verus! {

/// How an announced action was carried out.
#[derive(Clone, Copy, Debug, PartialEq, Eq, Structural)]
pub enum Verb {
    /// It would have been done (passive).
    Would,
    /// It was done.
    Live,
    /// It was skipped.
    Skipped,
}

pub open spec fn verb_word(verb: Verb) -> Seq<char> {
    match verb {
        Verb::Would => seq!['W', 'o', 'u', 'l', 'd'],
        Verb::Live => seq!['L', 'i', 'v', 'e'],
        Verb::Skipped => seq!['S', 'k', 'i', 'p', 'p', 'e', 'd'],
    }
}

impl Verb {
    /// The verb's name, as it is printed.
    pub fn name(&self) -> (r: &'static str)
        ensures
            r@ == verb_word(*self),
    {
        proof {
            reveal_strlit("Would");
            reveal_strlit("Live");
            reveal_strlit("Skipped");
        }
        let r = match self {
            Verb::Would => "Would",
            Verb::Live => "Live",
            Verb::Skipped => "Skipped",
        };
        assert(r@ =~= verb_word(*self));
        r
    }
}

/// The announcement `VERB: action: subject`, without colour.
pub open spec fn announcement(verb: Verb, action: Seq<char>, subject: Seq<char>) -> Seq<char> {
    verb_word(verb) + seq![':', ' '] + action + seq![':', ' '] + subject
}

/// Builds the announcement of an action on a command line or a path.
pub fn action_line(verb: Verb, action: &str, subject: &str) -> (r: String)
    ensures
        r@ == announcement(verb, action@, subject@),
{
    let mut r = verb.name().to_owned();
    proof { reveal_strlit(": "); }
    r.append(": ");
    r.append(action);
    r.append(": ");
    r.append(subject);
    assert(r@ =~= announcement(verb, action@, subject@));
    r
}

} // verus!
