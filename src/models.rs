use crate::scalar::Scalar;
use vstd::prelude::*;

verus! {

/// Target of a teleport, as plain integers.
pub struct TeleportParams {
    pub x: i64,
    pub y: i64,
}

/// Wall points of a map, flattened as x1, y1, x2, y2, ...
pub struct InitializeMapParams {
    pub coords: Vec<i64>,
}

/// The outcome of a state-changing call, as a message for the caller.
pub struct ApiResponse {
    pub message: String,
}

/// The entity's position as read from the contract.
pub struct PositionResponse {
    pub x: Scalar,
    pub y: Scalar,
}

/// The map's walls as read from the contract.
pub struct WallPositionResponse {
    pub walls: Vec<(Scalar, Scalar)>,
}

} // verus!
