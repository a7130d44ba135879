use vstd::prelude::*;

verus! {

/// Colour-scheme slot of a theme, numbered as the drawing engine numbers them.
#[derive(Debug, Clone, Copy, PartialEq, Eq, PartialOrd, Ord, Hash, Structural)]
pub enum SchemeStyle {
    Background1,
    Text1,
    Background2,
    Text2,
    Accent1,
    Accent2,
    Accent3,
    Accent4,
    Accent5,
    Accent6,
    Hyperlink,
    FollowedHyperlink,
}

impl SchemeStyle {
    /// The number of each slot.
    pub open spec fn number(self) -> u32 {
        match self {
            SchemeStyle::Background1 => 0,
            SchemeStyle::Text1 => 1,
            SchemeStyle::Background2 => 2,
            SchemeStyle::Text2 => 3,
            SchemeStyle::Accent1 => 4,
            SchemeStyle::Accent2 => 5,
            SchemeStyle::Accent3 => 6,
            SchemeStyle::Accent4 => 7,
            SchemeStyle::Accent5 => 8,
            SchemeStyle::Accent6 => 9,
            SchemeStyle::Hyperlink => 10,
            SchemeStyle::FollowedHyperlink => 11,
        }
    }

    /// The slot's number.
    pub fn as_u32(self) -> (r: u32)
        ensures
            r == self.number(),
    {
        match self {
            SchemeStyle::Background1 => 0,
            SchemeStyle::Text1 => 1,
            SchemeStyle::Background2 => 2,
            SchemeStyle::Text2 => 3,
            SchemeStyle::Accent1 => 4,
            SchemeStyle::Accent2 => 5,
            SchemeStyle::Accent3 => 6,
            SchemeStyle::Accent4 => 7,
            SchemeStyle::Accent5 => 8,
            SchemeStyle::Accent6 => 9,
            SchemeStyle::Hyperlink => 10,
            SchemeStyle::FollowedHyperlink => 11,
        }
    }

    /// The slot with number `v`, or `None` past the last slot.
    pub fn from_u32(v: u32) -> (r: Option<SchemeStyle>)
        ensures
            r is Some <==> v < 12,
            r matches Some(s) ==> s.number() == v,
    {
        match v {
            0 => Some(SchemeStyle::Background1),
            1 => Some(SchemeStyle::Text1),
            2 => Some(SchemeStyle::Background2),
            3 => Some(SchemeStyle::Text2),
            4 => Some(SchemeStyle::Accent1),
            5 => Some(SchemeStyle::Accent2),
            6 => Some(SchemeStyle::Accent3),
            7 => Some(SchemeStyle::Accent4),
            8 => Some(SchemeStyle::Accent5),
            9 => Some(SchemeStyle::Accent6),
            10 => Some(SchemeStyle::Hyperlink),
            11 => Some(SchemeStyle::FollowedHyperlink),
            _ => None,
        }
    }
}

/// Numbering and decoding undo each other.
pub proof fn lemma_scheme_style_round_trip(s: SchemeStyle)
    ensures
        s.number() < 12,
        forall|t: SchemeStyle| t.number() == s.number() ==> t == s,
{
}

/// The slots in the order the engine declares them: Background1, Text1, Background2,
/// Text2, Accent1 to Accent6, Hyperlink, FollowedHyperlink.
pub open spec fn declared_slots() -> Seq<SchemeStyle> {
    seq![
        SchemeStyle::Background1,
        SchemeStyle::Text1,
        SchemeStyle::Background2,
        SchemeStyle::Text2,
        SchemeStyle::Accent1,
        SchemeStyle::Accent2,
        SchemeStyle::Accent3,
        SchemeStyle::Accent4,
        SchemeStyle::Accent5,
        SchemeStyle::Accent6,
        SchemeStyle::Hyperlink,
        SchemeStyle::FollowedHyperlink,
    ]
}

/// Every slot's number is its engine discriminant, its place in the declaration
/// order: Background1 0, Text1 1, Background2 2, Text2 3, Accent1 4 through Accent6 9,
/// Hyperlink 10, FollowedHyperlink 11.
pub proof fn law_scheme_number_is_declared_discriminant(s: SchemeStyle)
    ensures
        declared_slots()[s.number() as int] == s,
        SchemeStyle::Background1.number() == 0,
        SchemeStyle::Text1.number() == 1,
        SchemeStyle::Background2.number() == 2,
        SchemeStyle::Text2.number() == 3,
        SchemeStyle::Accent1.number() == 4,
        SchemeStyle::Accent2.number() == 5,
        SchemeStyle::Accent3.number() == 6,
        SchemeStyle::Accent4.number() == 7,
        SchemeStyle::Accent5.number() == 8,
        SchemeStyle::Accent6.number() == 9,
        SchemeStyle::Hyperlink.number() == 10,
        SchemeStyle::FollowedHyperlink.number() == 11,
{
}

} // verus!
