//! Types shared by the sensor drivers: the status of a command, the values
//! handed to the generic callback and to the typed clients.
use vstd::prelude::*;

verus! {

/// Outcome of a command or subscribe call.
#[derive(Clone, Copy, Debug, PartialEq, Eq, Structural)]
pub enum ReturnCode {
    Success,
    /// Another operation is outstanding on the device.
    Busy,
    /// An argument does not select a defined configuration value.
    InvalidArgument,
    /// Unknown command or subscribe number.
    Unsupported,
}

/// The three values scheduled on the generic one-shot callback.
#[derive(Clone, Copy, Debug, PartialEq, Eq, Structural)]
pub struct CallbackArgs {
    pub data1: i32,
    pub data2: i32,
    pub data3: i32,
}

/// A three-axis reading delivered to a motion client.
#[derive(Clone, Copy, Debug, PartialEq, Eq, Structural)]
pub struct Xyz {
    pub x: i32,
    pub y: i32,
    pub z: i32,
}

impl CallbackArgs {
    pub fn new(data1: i32, data2: i32, data3: i32) -> (r: CallbackArgs)
        ensures
            r == (CallbackArgs { data1, data2, data3 }),
    {
        CallbackArgs { data1, data2, data3 }
    }

    pub fn zero() -> (r: CallbackArgs)
        ensures
            r == (CallbackArgs { data1: 0, data2: 0, data3: 0 }),
    {
        CallbackArgs { data1: 0, data2: 0, data3: 0 }
    }
}

impl Xyz {
    pub fn zero() -> (r: Xyz)
        ensures
            r == (Xyz { x: 0, y: 0, z: 0 }),
    {
        Xyz { x: 0, y: 0, z: 0 }
    }
}

/// What one completion hands out: the generic callback with its arguments,
/// a motion client with its reading, a temperature client with its reading.
/// Each is present only when such a client is registered and the completed
/// operation is one that reports to it.
pub struct Deliveries<C, N, T> {
    pub callback: Option<(C, CallbackArgs)>,
    pub nine_dof: Option<(N, Xyz)>,
    pub temperature: Option<(T, i32)>,
}


/// The client `c`, if any, paired with the value `v` it is to receive.
pub open spec fn with_client<A, B>(c: Option<A>, v: B) -> Option<(A, B)> {
    match c {
        Some(a) => Some((a, v)),
        None => None,
    }
}

/// Pairs the registered client, if any, with the value it is to receive.
pub fn deliver_to<A: Copy, B>(c: &Option<A>, v: B) -> (r: Option<(A, B)>)
    ensures
        r == with_client(*c, v),
{
    match c {
        Some(a) => Some((*a, v)),
        None => None,
    }
}

pub open spec fn zero_args() -> CallbackArgs {
    CallbackArgs { data1: 0, data2: 0, data3: 0 }
}

pub open spec fn zero_xyz() -> Xyz {
    Xyz { x: 0, y: 0, z: 0 }
}

} // verus!
