//! The wire protocol: framed messages and their request/response payloads.
//!
//! Each frame on the transport carries one [`Msg`]: a direction tag and a
//! nested encoding of a [`req::Req`] or a [`res::Res`]. The byte layout is
//! defined and verified in [`crate::codec`].

use vstd::prelude::*;

pub mod req;
pub mod res;

verus! {

/// Whether a frame carries a request or a response.
#[derive(Debug, Clone, Copy, PartialEq, Eq, Structural)]
pub enum Dir {
    Req,
    Res,
}

/// A framed message: a direction and the encoded payload.
#[derive(Debug, PartialEq, Eq)]
pub struct Msg {
    pub dir: Dir,
    pub data: Vec<u8>,
}

/// The mathematical model of a [`Msg`].
#[verifier::ext_equal]
pub struct MsgV {
    pub dir: Dir,
    pub data: Seq<u8>,
}

impl View for Msg {
    type V = MsgV;

    open spec fn view(&self) -> MsgV {
        MsgV { dir: self.dir, data: self.data@ }
    }
}

impl Msg {
    /// Frames an encoded request.
    pub fn req(data: Vec<u8>) -> (r: Self)
        ensures
            r@ == (MsgV { dir: Dir::Req, data: data@ }),
    {
        Msg { dir: Dir::Req, data }
    }

    /// Frames an encoded response.
    pub fn res(data: Vec<u8>) -> (r: Self)
        ensures
            r@ == (MsgV { dir: Dir::Res, data: data@ }),
    {
        Msg { dir: Dir::Res, data }
    }
}

} // verus!
