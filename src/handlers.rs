use crate::contract::{call_contract_ro_tuple, decode_wall_positions, wall_pairs, ClientError};
use crate::models::{InitializeMapParams, PositionResponse, TeleportParams, WallPositionResponse};
use crate::scalar::{signed_to_field, Scalar};
use vstd::prelude::*;

verus! {

/// A contract method and its arguments, ready to be invoked.
#[derive(Clone, Debug, PartialEq, Eq)]
pub struct MethodCall {
    pub method: String,
    pub calldata: Vec<Scalar>,
}

/// The arguments are the field elements of these integers, in order.
pub open spec fn encodes(calldata: Seq<Scalar>, xs: Seq<int>) -> bool {
    &&& calldata.len() == xs.len()
    &&& forall|i: int|
        0 <= i < xs.len() ==> (#[trigger] calldata[i]).wf() && calldata[i].value()
            == signed_to_field(xs[i])
}

fn method_call(method: &str, x: i64, y: i64) -> (r: MethodCall)
    ensures
        r.method@ == method@,
        encodes(r.calldata@, seq![x as int, y as int]),
{
    let calldata = vec![Scalar::from_i64(x), Scalar::from_i64(y)];
    MethodCall { method: method.to_owned(), calldata }
}

/// Lays out the map's walls; the coordinates must come in pairs.
pub fn initialize_map(params: &InitializeMapParams) -> (r: Result<MethodCall, ClientError>)
    ensures
        r is Ok <==> params.coords@.len() % 2 == 0,
        r is Ok ==> r->Ok_0.method@ == "initialize_map"@ && encodes(
            r->Ok_0.calldata@,
            params.coords@.map_values(|c: i64| c as int),
        ),
        r is Err ==> r->Err_0 == ClientError::InvalidArguments,
{
    let n = params.coords.len();
    if n % 2 != 0 {
        return Err(ClientError::InvalidArguments);
    }
    let mut calldata: Vec<Scalar> = Vec::new();
    let mut i: usize = 0;
    while i < n
        invariant
            n == params.coords@.len(),
            i <= n,
            encodes(calldata@, params.coords@.map_values(|c: i64| c as int).take(i as int)),
        decreases n - i,
    {
        calldata.push(Scalar::from_i64(params.coords[i]));
        i = i + 1;
    }
    assert(params.coords@.map_values(|c: i64| c as int).take(n as int) =~= params.coords@.map_values(
        |c: i64| c as int,
    ));
    Ok(MethodCall { method: "initialize_map".to_owned(), calldata })
}

/// Puts the entity back at its start.
pub fn initialize_position() -> (r: MethodCall)
    ensures
        r.method@ == "initialize_position"@,
        r.calldata@.len() == 0,
{
    MethodCall { method: "initialize_position".to_owned(), calldata: Vec::new() }
}

/// One step up: the delta (0, 1).
pub fn move_forward() -> (r: MethodCall)
    ensures
        r.method@ == "update_position"@,
        encodes(r.calldata@, seq![0, 1]),
{
    method_call("update_position", 0, 1)
}

/// One step down: the delta (0, -1).
pub fn move_down() -> (r: MethodCall)
    ensures
        r.method@ == "update_position"@,
        encodes(r.calldata@, seq![0, -1]),
{
    method_call("update_position", 0, -1)
}

/// One step left: the delta (-1, 0).
pub fn move_left() -> (r: MethodCall)
    ensures
        r.method@ == "update_position"@,
        encodes(r.calldata@, seq![-1, 0]),
{
    method_call("update_position", -1, 0)
}

/// One step right: the delta (1, 0).
pub fn move_right() -> (r: MethodCall)
    ensures
        r.method@ == "update_position"@,
        encodes(r.calldata@, seq![1, 0]),
{
    method_call("update_position", 1, 0)
}

/// Moves the entity to a given point.
pub fn teleport_to(params: &TeleportParams) -> (r: MethodCall)
    ensures
        r.method@ == "teleport"@,
        encodes(r.calldata@, seq![params.x as int, params.y as int]),
{
    method_call("teleport", params.x, params.y)
}

/// The position held in the result of the contract's `get_position`.
pub fn get_position(values: &Vec<Scalar>) -> (r: Result<PositionResponse, ClientError>)
    ensures
        r is Ok <==> values@.len() >= 2,
        r is Ok ==> r->Ok_0.x == values@[0] && r->Ok_0.y == values@[1],
        r is Err ==> r->Err_0 == ClientError::MalformedResponse,
{
    match call_contract_ro_tuple(values) {
        Ok((x, y)) => Ok(PositionResponse { x, y }),
        Err(e) => Err(e),
    }
}

/// The walls held in the result of the contract's `get_wall_positions`.
pub fn get_wall_positions(values: &Vec<Scalar>) -> (r: Result<WallPositionResponse, ClientError>)
    ensures
        r is Ok <==> values@.len() >= 1,
        r is Ok ==> r->Ok_0.walls@ == wall_pairs(values@),
        r is Err ==> r->Err_0 == ClientError::MalformedResponse,
{
    match decode_wall_positions(values) {
        Ok(walls) => Ok(WallPositionResponse { walls }),
        Err(e) => Err(e),
    }
}

} // verus!
