//! A plain echo server, for verifying and benchmarking outgoing traffic.

use crate::text::{
    chars_of, decimal, law_decimals_are_read_back, numbered, parse_unsigned, unsigned_value,
};
use vstd::prelude::*;

verus! {

/// How many bytes the server reads from a stream at a time.
pub const BUFFER_SIZE: usize = 256 * 1024;

/// The port to listen on where no other is given.
pub const DEFAULT_PORT: u16 = 7777;

/// The port to listen on: the argument, if there is one that is a port.
pub fn echo_port(arg: Option<&str>) -> (r: u16)
    ensures
        r == match arg {
            Some(text) => match unsigned_value(text@, u16::MAX as nat) {
                Some(port) => port as u16,
                None => DEFAULT_PORT,
            },
            None => DEFAULT_PORT,
        },
{
    match arg {
        Some(text) => match parse_unsigned(chars_of(text).as_slice(), u16::MAX as u64) {
            Some(port) => port as u16,
            None => DEFAULT_PORT,
        },
        None => DEFAULT_PORT,
    }
}

/// The line that says that the server is up.
pub fn listening_line(port: u16) -> (r: String)
    ensures
        r@ == "echo server listening on TCP+UDP port "@ + decimal(port as nat),
{
    let r = numbered("echo server listening on TCP+UDP port ", port as u128, "");
    proof {
        reveal_strlit("");
        assert(r@ =~= "echo server listening on TCP+UDP port "@ + decimal(port as nat));
    }
    r
}

/// What happens on a stream that is echoed.
#[derive(Debug, Clone, Copy, PartialEq, Eq)]
pub enum EchoEvent {
    /// This many bytes were read.
    Read(usize),
    ReadFailed,
    Written,
    WriteFailed,
}

/// What is done next on a stream that is echoed.
#[derive(Debug, Clone, Copy, PartialEq, Eq)]
pub enum EchoStep {
    Read,
    /// Write back this many of the bytes that were read.
    Write(usize),
    /// Close the stream.
    Close,
}

/// What is done next on a stream that is echoed: all that is read is written back, until
/// there is nothing more to read or something fails.
pub fn echo_tcp(event: EchoEvent) -> (r: EchoStep)
    ensures
        r == match event {
            EchoEvent::Read(n) => if n == 0 {
                EchoStep::Close
            } else {
                EchoStep::Write(n)
            },
            EchoEvent::ReadFailed => EchoStep::Close,
            EchoEvent::Written => EchoStep::Read,
            EchoEvent::WriteFailed => EchoStep::Close,
        },
{
    match event {
        EchoEvent::Read(n) => if n == 0 {
            EchoStep::Close
        } else {
            EchoStep::Write(n)
        },
        EchoEvent::ReadFailed => EchoStep::Close,
        EchoEvent::Written => EchoStep::Read,
        EchoEvent::WriteFailed => EchoStep::Close,
    }
}

/// What happens on a datagram socket that is echoed.
#[derive(Debug, Clone, Copy, PartialEq, Eq)]
pub enum DatagramEvent {
    /// A datagram of this many bytes came.
    Received(usize),
    /// Receiving failed.
    ReceiveFailed,
    /// A datagram was sent back, or not.
    Replied,
    /// A failure was reported.
    Reported,
}

/// What is done next on a datagram socket that is echoed.
#[derive(Debug, Clone, Copy, PartialEq, Eq)]
pub enum DatagramStep {
    Receive,
    /// Send this many of the bytes that came back to where they came from.
    Reply(usize),
    /// Report the failure.
    Report,
}

/// What is done next on a datagram socket that is echoed: every datagram is sent back, an
/// empty one too, and no failure ends it.
pub fn echo_udp(event: DatagramEvent) -> (r: DatagramStep)
    ensures
        r == match event {
            DatagramEvent::Received(n) => DatagramStep::Reply(n),
            DatagramEvent::ReceiveFailed => DatagramStep::Report,
            DatagramEvent::Replied => DatagramStep::Receive,
            DatagramEvent::Reported => DatagramStep::Receive,
        },
{
    match event {
        DatagramEvent::Received(n) => DatagramStep::Reply(n),
        DatagramEvent::ReceiveFailed => DatagramStep::Report,
        DatagramEvent::Replied => DatagramStep::Receive,
        DatagramEvent::Reported => DatagramStep::Receive,
    }
}

/// Every byte that is read from a stream is written back before more is read: a read of some
/// bytes is followed by a write of as many, and only a write that went well by another read.
/// Nothing is written that was not read, and whatever else happens closes the stream.
pub proof fn law_what_is_read_is_written_back(event: EchoEvent, step: EchoStep, n: usize)
    requires
        call_ensures(echo_tcp, (event,), step),
    ensures
        step == EchoStep::Write(n) <==> event == EchoEvent::Read(n) && n > 0,
        step is Read <==> event is Written,
        step is Close <==> event is ReadFailed || event is WriteFailed || event == EchoEvent::Read(
            0,
        ),
{
}

/// Every datagram that came is sent back, as long as it was, and more are received after it;
/// a failure is reported, and ends nothing.
pub proof fn law_every_datagram_is_sent_back(event: DatagramEvent, step: DatagramStep, n: usize)
    requires
        call_ensures(echo_udp, (event,), step),
    ensures
        step == DatagramStep::Reply(n) <==> event == DatagramEvent::Received(n),
        step is Receive <==> event is Replied || event is Reported,
        step is Report <==> event is ReceiveFailed,
{
}

/// The port that is asked for is the port that is listened on; where none is asked for, or
/// what is asked for is no port, it is the default one.
pub proof fn law_the_port_is_the_one_asked_for(arg: Option<&str>, port: u16, asked: nat)
    requires
        call_ensures(echo_port, (arg,), port),
    ensures
        arg is None ==> port == 7777,
        arg matches Some(text) ==> text@ == decimal(asked) ==> port == if asked <= u16::MAX {
            asked
        } else {
            7777
        },
        arg matches Some(text) ==> unsigned_value(text@, u16::MAX as nat) is None ==> port == 7777,
{
    law_decimals_are_read_back(asked, u16::MAX as nat);
}

} // verus!
