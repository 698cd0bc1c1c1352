//! The closed catalog of brick shapes.

use vstd::prelude::*;

verus! {

/// The shape of a brick. Each variant stands for one silhouette of the
/// catalog; the layout engine is the same for all of them.
#[derive(Clone, Copy, Debug, PartialEq, Eq, Structural)]
pub enum BrickType {
    H0Collapsed,
    H1Base,
    H2Base,
    H3Base,
    H1Control,
    H2Control,
}

impl BrickType {
    /// The shape a numeric picker id selects, or `None` for an id outside
    /// the catalog.
    pub fn from_id(brick_id: i32) -> (r: Option<BrickType>)
        ensures
            r == (if brick_id == 0 {
                Some(BrickType::H0Collapsed)
            } else if brick_id == 1 {
                Some(BrickType::H1Base)
            } else if brick_id == 2 {
                Some(BrickType::H1Control)
            } else if brick_id == 3 {
                Some(BrickType::H2Base)
            } else if brick_id == 4 {
                Some(BrickType::H2Control)
            } else if brick_id == 5 {
                Some(BrickType::H3Base)
            } else {
                None
            }),
    {
        match brick_id {
            0 => Some(BrickType::H0Collapsed),
            1 => Some(BrickType::H1Base),
            2 => Some(BrickType::H1Control),
            3 => Some(BrickType::H2Base),
            4 => Some(BrickType::H2Control),
            5 => Some(BrickType::H3Base),
            _ => None,
        }
    }
}

/// The display name of a shape.
pub fn brick_type_name(brick_type: &BrickType) -> (r: &'static str)
    ensures
        brick_type is H0Collapsed ==> r@ == "H0 Collapsed"@,
        brick_type is H1Base ==> r@ == "H1 Base"@,
        brick_type is H1Control ==> r@ == "H1 Control"@,
        brick_type is H2Base ==> r@ == "H2 Base"@,
        brick_type is H2Control ==> r@ == "H2 Control"@,
        brick_type is H3Base ==> r@ == "H3 Base"@,
{
    match brick_type {
        BrickType::H0Collapsed => "H0 Collapsed",
        BrickType::H1Base => "H1 Base",
        BrickType::H1Control => "H1 Control",
        BrickType::H2Base => "H2 Base",
        BrickType::H2Control => "H2 Control",
        BrickType::H3Base => "H3 Base",
    }
}

/// The one-line description of a shape.
pub fn brick_type_description(brick_type: &BrickType) -> (r: &'static str)
    ensures
        brick_type is H0Collapsed ==> r@ == "Thin horizontal brick"@,
        brick_type is H1Base ==> r@ == "Standard base brick - small"@,
        brick_type is H1Control ==> r@ == "Control brick - small"@,
        brick_type is H2Base ==> r@ == "Standard base brick - medium"@,
        brick_type is H2Control ==> r@ == "Control brick - medium"@,
        brick_type is H3Base ==> r@ == "Standard base brick - large"@,
{
    match brick_type {
        BrickType::H0Collapsed => "Thin horizontal brick",
        BrickType::H1Base => "Standard base brick - small",
        BrickType::H1Control => "Control brick - small",
        BrickType::H2Base => "Standard base brick - medium",
        BrickType::H2Control => "Control brick - medium",
        BrickType::H3Base => "Standard base brick - large",
    }
}

} // verus!
