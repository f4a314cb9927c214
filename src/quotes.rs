//! The quotes shown under the timer, and picking one at random.

use vstd::prelude::*;
use rand::seq::IndexedRandom;

verus! {

/// Relies on rand's `IndexedRandom::choose` with the thread-local
/// generator: `None` for an empty slice, otherwise one of its items.
#[verifier::external_body]
fn choose_quote(quotes: &[&'static str]) -> (r: Option<&'static str>)
    ensures
        r is None == (quotes@.len() == 0),
        r matches Some(q) ==> quotes@.contains(q),
{
    quotes.choose(&mut rand::rng()).copied()
}

/// The built-in quotes, in order.
pub open spec fn standard_quotes() -> Seq<&'static str> {
    seq![
        "Later the coffee gets cold, later interest gets old",
        "Later the dream shatters, later the truth matters",
        "Later the illusion fades, later the real pervades",
        "Later the comfort breaks, later the challenge awakes",
        "Later the sleep departs, later the journey starts",
        "Later the mask falls, later the self stands tall",
        "Later the chains loosen, later the spirit's chosen",
        "Later the fear subsides, later the courage guides",
        "Later the doubt recedes, later the will proceeds",
        "Later the past releases, later the future increases",
        "Later the lies unravel, later the answers travel",
        "Later the world awakens, later the heart strengthens",
        "Later the vision clears, later the purpose nears",
        "Later the voice calls, later the destiny enthralls",
        "Later the time is now, later the power you endow",
        "Later the choice is made, later the path is laid",
        "Later the battle starts, later the victory imparts",
        "Later the wound heals, later the spirit reveals",
        "Later the scar remains, later the wisdom it sustains",
        "Later the fall occurs, later the lesson endures",
        "Later the rise begins, later the true self wins",
        "Later the change arrives, later the new life thrives",
        "Later the old self dies, later the true self flies",
        "Later the cage breaks open, later the spirit is spoken",
        "Later the blindfold lifts, later the true sight gifts",
        "Later the illusion shatters, later reality matters",
        "Later the dream dissolves, later the truth evolves",
        "Later the false hope fades, later true strength pervades",
        "Later the shallow sleep ends, later the deep knowing transcends",
        "Later the painted smile cracks, later the authentic self attacks",
        "Later the sugar-coated lie decays, later the bitter truth sways",
        "Later the fleeting pleasure departs, later lasting purpose imparts",
        "Later the fleeting moment slips, later eternal presence grips",
        "Later the borrowed identity cracks, later the true self enacts",
        "Later the whispered promise breaks, later the silent vow awakes",
        "Later the fleeting beauty decays, later inner strength displays",
        "Later the comforting lie unwinds, later truth's harsh light blinds",
        "Later the sweet delusion ends, later reality transcends",
        "Later the painted world cracks, later the true world attacks",
        "Later the soft illusion shatters, later the stark truth matters",
        "Later the fleeting joy subsides, later deep purpose guides",
        "Later the borrowed strength wanes, later true power sustains",
        "Later the hollow praise rings hollow, later self-belief will follow",
        "Later the fleeting glimpse fades, later lasting vision pervades",
        "Later the sugar-coated dream sours, later true potential flowers",
        "Later the borrowed time runs out, later true self cries out",
        "Later the painted smile fades, later authentic strength pervades",
        "Later the comforting lie deceives, later harsh truth relieves",
        "Later the sweet illusion shatters, later reality truly matters",
        "Later the fleeting pleasure wanes, later lasting purpose sustains",
        "Later the borrowed identity cracks, later true self enacts",
        "Later the whispered promise breaks, later the silent vow awakes",
        "Later the fleeting beauty decays, later inner strength displays",
        "Later the comforting lie unwinds, later truth's harsh light blinds",
        "Later the sweet delusion ends, later reality transcends",
        "Later the painted world cracks, later the true world attacks",
        "Later the soft illusion shatters, later the stark truth matters",
        "Later the fleeting joy subsides, later deep purpose guides",
        "Later the borrowed strength wanes, later true power sustains",
        "Later the hollow praise rings hollow, later self-belief will follow",
        "Later the fleeting glimpse fades, later lasting vision pervades",
        "Later the sugar-coated dream sours, later true potential flowers",
        "Later the borrowed time runs out, later true self cries out",
        "Later the painted smile fades, later authentic strength pervades",
        "Later the comforting lie deceives, later harsh truth relieves",
        "Later the sweet illusion shatters, later reality truly matters",
    ]
}

/// A fixed, non-empty list of quotes.
pub struct QuoteSource {
    quotes: Vec<&'static str>,
}

impl View for QuoteSource {
    type V = Seq<&'static str>;

    closed spec fn view(&self) -> Seq<&'static str> {
        self.quotes@
    }
}

impl QuoteSource {
    /// A source over `quotes`, which must not be empty.
    pub fn new(quotes: Vec<&'static str>) -> (r: QuoteSource)
        requires
            quotes@.len() > 0,
        ensures
            r@ == quotes@,
    {
        QuoteSource { quotes }
    }

    /// The built-in quotes.
    pub fn standard() -> (r: QuoteSource)
        ensures
            r@ == standard_quotes(),
            r@.len() == 66,
    {
        let quotes = vec![
        "Later the coffee gets cold, later interest gets old",
        "Later the dream shatters, later the truth matters",
        "Later the illusion fades, later the real pervades",
        "Later the comfort breaks, later the challenge awakes",
        "Later the sleep departs, later the journey starts",
        "Later the mask falls, later the self stands tall",
        "Later the chains loosen, later the spirit's chosen",
        "Later the fear subsides, later the courage guides",
        "Later the doubt recedes, later the will proceeds",
        "Later the past releases, later the future increases",
        "Later the lies unravel, later the answers travel",
        "Later the world awakens, later the heart strengthens",
        "Later the vision clears, later the purpose nears",
        "Later the voice calls, later the destiny enthralls",
        "Later the time is now, later the power you endow",
        "Later the choice is made, later the path is laid",
        "Later the battle starts, later the victory imparts",
        "Later the wound heals, later the spirit reveals",
        "Later the scar remains, later the wisdom it sustains",
        "Later the fall occurs, later the lesson endures",
        "Later the rise begins, later the true self wins",
        "Later the change arrives, later the new life thrives",
        "Later the old self dies, later the true self flies",
        "Later the cage breaks open, later the spirit is spoken",
        "Later the blindfold lifts, later the true sight gifts",
        "Later the illusion shatters, later reality matters",
        "Later the dream dissolves, later the truth evolves",
        "Later the false hope fades, later true strength pervades",
        "Later the shallow sleep ends, later the deep knowing transcends",
        "Later the painted smile cracks, later the authentic self attacks",
        "Later the sugar-coated lie decays, later the bitter truth sways",
        "Later the fleeting pleasure departs, later lasting purpose imparts",
        "Later the fleeting moment slips, later eternal presence grips",
        "Later the borrowed identity cracks, later the true self enacts",
        "Later the whispered promise breaks, later the silent vow awakes",
        "Later the fleeting beauty decays, later inner strength displays",
        "Later the comforting lie unwinds, later truth's harsh light blinds",
        "Later the sweet delusion ends, later reality transcends",
        "Later the painted world cracks, later the true world attacks",
        "Later the soft illusion shatters, later the stark truth matters",
        "Later the fleeting joy subsides, later deep purpose guides",
        "Later the borrowed strength wanes, later true power sustains",
        "Later the hollow praise rings hollow, later self-belief will follow",
        "Later the fleeting glimpse fades, later lasting vision pervades",
        "Later the sugar-coated dream sours, later true potential flowers",
        "Later the borrowed time runs out, later true self cries out",
        "Later the painted smile fades, later authentic strength pervades",
        "Later the comforting lie deceives, later harsh truth relieves",
        "Later the sweet illusion shatters, later reality truly matters",
        "Later the fleeting pleasure wanes, later lasting purpose sustains",
        "Later the borrowed identity cracks, later true self enacts",
        "Later the whispered promise breaks, later the silent vow awakes",
        "Later the fleeting beauty decays, later inner strength displays",
        "Later the comforting lie unwinds, later truth's harsh light blinds",
        "Later the sweet delusion ends, later reality transcends",
        "Later the painted world cracks, later the true world attacks",
        "Later the soft illusion shatters, later the stark truth matters",
        "Later the fleeting joy subsides, later deep purpose guides",
        "Later the borrowed strength wanes, later true power sustains",
        "Later the hollow praise rings hollow, later self-belief will follow",
        "Later the fleeting glimpse fades, later lasting vision pervades",
        "Later the sugar-coated dream sours, later true potential flowers",
        "Later the borrowed time runs out, later true self cries out",
        "Later the painted smile fades, later authentic strength pervades",
        "Later the comforting lie deceives, later harsh truth relieves",
        "Later the sweet illusion shatters, later reality truly matters",
        ];
        QuoteSource { quotes }
    }

    pub fn len(&self) -> (r: usize)
        ensures
            r == self@.len(),
    {
        self.quotes.len()
    }

    /// Quote `i`.
    pub fn get(&self, i: usize) -> (r: &'static str)
        requires
            i < self@.len(),
        ensures
            r == self@[i as int],
    {
        self.quotes[i]
    }

    /// One of the quotes, chosen uniformly at random; the same quote may
    /// come twice in a row.
    pub fn pick(&self) -> (r: &'static str)
        requires
            self@.len() > 0,
        ensures
            self@.contains(r),
    {
        match choose_quote(self.quotes.as_slice()) {
            Some(q) => q,
            None => self.quotes[0],
        }
    }
}

} // verus!
