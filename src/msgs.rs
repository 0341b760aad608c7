use vstd::prelude::*;
use crate::error::RosenpassError;

verus! {

/// The kinds of message the state machine handles.
#[derive(Debug, Clone, Copy, PartialEq, Eq, Structural)]
pub enum MsgType {
    InitHello,
    RespHello,
    InitConf,
    /// The content-free indicator that a completed peer is ready for data.
    EmptyData,
}

/// The tag byte that precedes a message of each kind on the wire.
pub open spec fn tag_of(t: MsgType) -> u8 {
    match t {
        MsgType::InitHello => 0x81,
        MsgType::RespHello => 0x82,
        MsgType::InitConf => 0x83,
        MsgType::EmptyData => 0x84,
    }
}

impl MsgType {
    pub fn tag(self) -> (r: u8)
        ensures
            r == tag_of(self),
    {
        match self {
            MsgType::InitHello => 0x81,
            MsgType::RespHello => 0x82,
            MsgType::InitConf => 0x83,
            MsgType::EmptyData => 0x84,
        }
    }

    /// The kind a tag names; `InvalidMessageType` with the tag where it names none.
    pub fn from_tag(tag: u8) -> (r: Result<MsgType, RosenpassError>)
        ensures
            match r {
                Ok(t) => tag_of(t) == tag,
                Err(e) => e == RosenpassError::InvalidMessageType(tag) && forall|t: MsgType|
                    tag_of(t) != tag,
            },
    {
        if tag == 0x81 {
            Ok(MsgType::InitHello)
        } else if tag == 0x82 {
            Ok(MsgType::RespHello)
        } else if tag == 0x83 {
            Ok(MsgType::InitConf)
        } else if tag == 0x84 {
            Ok(MsgType::EmptyData)
        } else {
            Err(RosenpassError::InvalidMessageType(tag))
        }
    }
}

/// Accepts a message only where its tag names the kind the state machine
/// waits for; any other tag is `InvalidMessageType`.
pub fn expect_message(tag: u8, expected: MsgType) -> (r: Result<(), RosenpassError>)
    ensures
        tag == tag_of(expected) ==> r is Ok,
        tag != tag_of(expected) ==> r == Err::<(), RosenpassError>(
            RosenpassError::InvalidMessageType(tag),
        ),
{
    if tag == expected.tag() {
        Ok(())
    } else {
        Err(RosenpassError::InvalidMessageType(tag))
    }
}

/// An attempt that has not completed by its deadline is torn down: `Timeout`
/// exactly where `now` has reached `deadline`.
pub fn check_deadline(now: u64, deadline: u64) -> (r: Result<(), RosenpassError>)
    ensures
        now < deadline ==> r is Ok,
        now >= deadline ==> r == Err::<(), RosenpassError>(RosenpassError::Timeout),
{
    if now < deadline {
        Ok(())
    } else {
        Err(RosenpassError::Timeout)
    }
}

} // verus!
