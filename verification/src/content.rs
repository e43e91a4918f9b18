//! The kinds of records that slide content can belong to, and the tag
//! strings they travel under in storage and on the wire.

use vstd::prelude::*;

verus! {

/// What a content row is attached to.
#[derive(Clone, Copy, Debug, PartialEq, Eq, Structural)]
pub enum ContentFor {
    DisplayOutput,
    SlideType,
    SlideGroup,
    Slide,
    SlideDeck,
    SlideDeckSection,
    SlideDeckSlide,
}

/// The tag string of each kind.
pub open spec fn spec_tag(c: ContentFor) -> Seq<char> {
    match c {
        ContentFor::DisplayOutput => "display_output"@,
        ContentFor::SlideType => "slide_type"@,
        ContentFor::SlideGroup => "slide_group"@,
        ContentFor::Slide => "slide"@,
        ContentFor::SlideDeck => "slide_deck"@,
        ContentFor::SlideDeckSection => "slide_deck_section"@,
        ContentFor::SlideDeckSlide => "slide_deck_slide"@,
    }
}

/// The kind a tag string denotes, if any.
pub open spec fn spec_from_tag(s: Seq<char>) -> Option<ContentFor> {
    if s == "display_output"@ {
        Some(ContentFor::DisplayOutput)
    } else if s == "slide_type"@ {
        Some(ContentFor::SlideType)
    } else if s == "slide_group"@ {
        Some(ContentFor::SlideGroup)
    } else if s == "slide"@ {
        Some(ContentFor::Slide)
    } else if s == "slide_deck"@ {
        Some(ContentFor::SlideDeck)
    } else if s == "slide_deck_section"@ {
        Some(ContentFor::SlideDeckSection)
    } else if s == "slide_deck_slide"@ {
        Some(ContentFor::SlideDeckSlide)
    } else {
        None
    }
}

impl ContentFor {
    /// The tag this kind travels under.
    pub fn tag(&self) -> (r: &'static str)
        ensures
            r@ == spec_tag(*self),
    {
        match *self {
            ContentFor::DisplayOutput => "display_output",
            ContentFor::SlideType => "slide_type",
            ContentFor::SlideGroup => "slide_group",
            ContentFor::Slide => "slide",
            ContentFor::SlideDeck => "slide_deck",
            ContentFor::SlideDeckSection => "slide_deck_section",
            ContentFor::SlideDeckSlide => "slide_deck_slide",
        }
    }

    /// Parses a tag; an unknown tag maps to nothing and the boundary turns
    /// it into a protocol or storage error.
    pub fn from_tag(s: &str) -> (r: Option<ContentFor>)
        ensures
            r == spec_from_tag(s@),
    {
        let t = s.to_owned();
        if t == "display_output".to_owned() {
            Some(ContentFor::DisplayOutput)
        } else if t == "slide_type".to_owned() {
            Some(ContentFor::SlideType)
        } else if t == "slide_group".to_owned() {
            Some(ContentFor::SlideGroup)
        } else if t == "slide".to_owned() {
            Some(ContentFor::Slide)
        } else if t == "slide_deck".to_owned() {
            Some(ContentFor::SlideDeck)
        } else if t == "slide_deck_section".to_owned() {
            Some(ContentFor::SlideDeckSection)
        } else if t == "slide_deck_slide".to_owned() {
            Some(ContentFor::SlideDeckSlide)
        } else {
            None
        }
    }
}

/// Tags name their kinds uniquely: parsing a kind's own tag yields the kind
/// back, for every kind.
pub proof fn lemma_tag_round_trip(c: ContentFor)
    ensures
        spec_from_tag(spec_tag(c)) == Some(c),
{
    reveal_strlit("display_output");
    reveal_strlit("slide_type");
    reveal_strlit("slide_group");
    reveal_strlit("slide");
    reveal_strlit("slide_deck");
    reveal_strlit("slide_deck_section");
    reveal_strlit("slide_deck_slide");
    assert("display_output"@.len() == 14);
    assert("slide_type"@.len() == 10);
    assert("slide_group"@.len() == 11);
    assert("slide"@.len() == 5);
    assert("slide_deck"@.len() == 10);
    assert("slide_deck_section"@.len() == 18);
    assert("slide_deck_slide"@.len() == 16);
    assert("slide_type"@[6] == 't');
    assert("slide_deck"@[6] == 'd');
}

} // verus!
