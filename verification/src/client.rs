//! The client core: the handshake, argument validation and command framing.

use crate::error::ClientError;
use crate::transport::Transport;
use crate::wire;
use crate::wire::{Command, CommandModel};
use vstd::prelude::*;

verus! {

/// Whether a `width` by `height` area anchored at `(x, y)` lies inside a
/// matrix of `mw` by `mh` pixels. The sums are taken over the unbounded
/// integers, so a sum that would overflow the coordinate's range is simply
/// out of bounds.
pub open spec fn area_fits(mw: u8, mh: u8, x: u8, y: u8, w: u8, h: u8) -> bool {
    x + w <= mw && y + h <= mh
}

/// Validate the arguments of a contiguous block against the matrix bounds:
/// the area must fit, and the payload must hold exactly three color bytes
/// per pixel of the area. These are the only two locally enforced checks in
/// the whole command set — a mismatched contiguous payload would corrupt
/// the wire framing for every later command, while the other commands are
/// self-framing.
pub fn contiguous_check(mw: u8, mh: u8, x: u8, y: u8, w: u8, h: u8, colors_len: usize) -> (r:
    Result<(), ClientError>)
    ensures
        r is Ok <==> area_fits(mw, mh, x, y, w, h) && colors_len == 3 * (w as int) * (h as int),
        r == Err::<(), ClientError>(ClientError::AreaTooLarge) <==> !area_fits(mw, mh, x, y, w, h),
        r == Err::<(), ClientError>(ClientError::WrongColorLength) <==> area_fits(mw, mh, x, y, w, h)
            && colors_len != 3 * (w as int) * (h as int),
{
    let too_wide = (x as u16) + (w as u16) > (mw as u16);
    let too_high = (y as u16) + (h as u16) > (mh as u16);
    if too_wide || too_high {
        return Err(ClientError::AreaTooLarge);
    }
    proof {
        assert(3 * (w as int) * (h as int) <= 195075) by (nonlinear_arith)
            requires
                w <= 255,
                h <= 255,
        ;
    }
    let expected: usize = 3 * (w as usize) * (h as usize);
    if expected != colors_len {
        return Err(ClientError::WrongColorLength);
    }
    Ok(())
}

/// A handshake a client may accept: the expected protocol-version byte,
/// then a nonzero width and a nonzero height. A matrix has between 1 and
/// 255 cells along each axis, so a handshake reporting a zero dimension is
/// as wrong as a foreign version byte.
pub open spec fn handshake_ok(inc: Seq<u8>) -> bool {
    inc.len() >= 3 && inc[0] == wire::PROTOCOL_VERSION && inc[1] >= 1 && inc[2] >= 1
}

/// A connection to one matrix: the transport behind it and the dimensions
/// the handshake negotiated, each between 1 and 255.
///
/// The dimensions never change for the lifetime of the client. Every
/// drawing operation validates, frames one command and hands the bytes to
/// the transport before it returns, so commands issued in sequence stand on
/// the wire in issue order. A program sharing one client across several
/// callers puts it behind a mutual-exclusion lock and holds the lock across
/// one whole operation; the contracts here say what each operation appends,
/// so frames from different holders never tear.
pub struct Client<T: Transport> {
    /// The stream the command frames go to.
    pub transport: T,
    /// The matrix width the handshake reported.
    pub width: u8,
    /// The matrix height the handshake reported.
    pub height: u8,
}

impl<T: Transport> Client<T> {
    /// Run the handshake on a fresh transport: one protocol-version byte,
    /// which must equal [`wire::PROTOCOL_VERSION`], then the matrix width
    /// and height, one byte each, both nonzero. A handshake reporting a
    /// zero dimension yields no client: the matrix has between 1 and 255
    /// cells along each axis.
    pub fn connect(transport: T) -> (r: Result<Self, ClientError>)
        ensures
            r matches Ok(c) ==> {
                let inc = transport.incoming();
                &&& handshake_ok(inc)
                &&& c.width == inc[1]
                &&& c.height == inc[2]
                &&& c.width >= 1
                &&& c.height >= 1
                &&& c.transport.incoming() == inc.skip(3)
                &&& c.transport.written() == transport.written()
                &&& c.transport.sent() == transport.sent()
                &&& (transport.reliable() ==> c.transport.reliable())
            },
            r == Err::<Self, ClientError>(ClientError::ProtocolMismatch) ==> {
                let inc = transport.incoming();
                ||| inc.len() >= 1 && inc[0] != wire::PROTOCOL_VERSION
                ||| inc.len() >= 3 && (inc[1] == 0 || inc[2] == 0)
            },
            r matches Err(e) ==> e == ClientError::ProtocolMismatch || e == ClientError::IoError,
            transport.reliable() && handshake_ok(transport.incoming()) ==> r is Ok,
            transport.reliable() && transport.incoming().len() >= 3 && !handshake_ok(
                transport.incoming(),
            ) ==> r == Err::<Self, ClientError>(ClientError::ProtocolMismatch),
    {
        let ghost orig = transport;
        let mut transport = transport;
        let version = match transport.read_byte() {
            Ok(b) => b,
            Err(e) => {
                return Err(e);
            },
        };
        if version != wire::PROTOCOL_VERSION {
            return Err(ClientError::ProtocolMismatch);
        }
        let width = match transport.read_byte() {
            Ok(b) => b,
            Err(e) => {
                return Err(e);
            },
        };
        let height = match transport.read_byte() {
            Ok(b) => b,
            Err(e) => {
                return Err(e);
            },
        };
        if width == 0 || height == 0 {
            return Err(ClientError::ProtocolMismatch);
        }
        proof {
            assert(transport.incoming() =~= orig.incoming().skip(3));
        }
        Ok(Client { transport, width, height })
    }

    /// The matrix width, fixed at handshake time.
    pub fn width(&self) -> (r: u8)
        ensures
            r == self.width,
    {
        self.width
    }

    /// The matrix height, fixed at handshake time.
    pub fn height(&self) -> (r: u8)
        ensures
            r == self.height,
    {
        self.height
    }

    /// How many pixels the matrix has: exactly width times height. The
    /// product of two single bytes always fits the result: 255 * 255 =
    /// 65025.
    pub fn total_pixels(&self) -> (r: u16)
        ensures
            r == (self.width as int) * (self.height as int),
    {
        proof {
            assert((self.width as int) * (self.height as int) <= 65025) by (nonlinear_arith)
                requires
                    self.width <= 255,
                    self.height <= 255,
            ;
        }
        (self.width as u16) * (self.height as u16)
    }

    /// Force every buffered command byte onto the wire; returns only once
    /// the underlying write completed or failed. A flush accepts no new
    /// bytes and reads none, whatever its outcome.
    pub fn flush(&mut self) -> (r: Result<(), ClientError>)
        ensures
            final(self).width == old(self).width,
            final(self).height == old(self).height,
            final(self).transport.written() == old(self).transport.written(),
            final(self).transport.incoming() == old(self).transport.incoming(),
            r is Ok ==> final(self).transport.sent() == final(self).transport.written(),
            r is Err ==> r == Err::<(), ClientError>(ClientError::IoError),
            old(self).transport.reliable() ==> r is Ok && final(self).transport.reliable(),
    {
        self.transport.flush()
    }

    /// Set one pixel of the matrix to the given color. The coordinates are
    /// passed through unchecked — the remote device is responsible for
    /// ignoring what lies outside. The frame is buffered; flush to send.
    /// Nothing is read; a failed write leaves some prefix of the frame
    /// buffered.
    pub fn pixel(&mut self, x: u8, y: u8, red: u8, green: u8, blue: u8) -> (r: Result<
        (),
        ClientError,
    >)
        ensures
            final(self).width == old(self).width,
            final(self).height == old(self).height,
            final(self).transport.incoming() == old(self).transport.incoming(),
            r is Ok ==> final(self).transport.written() == old(self).transport.written()
                + wire::spec_encode(CommandModel::Pixel { x, y, red, green, blue }),
            r is Err ==> r == Err::<(), ClientError>(ClientError::IoError) && (exists|k: int|
                0 <= k <= wire::spec_encode(CommandModel::Pixel { x, y, red, green, blue }).len()
                    && final(self).transport.written() == old(self).transport.written()
                    + wire::spec_encode(CommandModel::Pixel { x, y, red, green, blue }).take(k)),
            old(self).transport.reliable() ==> r is Ok && final(self).transport.reliable(),
    {
        let frame = wire::encode(&Command::Pixel { x, y, red, green, blue });
        self.transport.write_all(frame.as_slice())
    }

    /// Fill the whole matrix with one color. The frame is buffered; flush
    /// to send. Nothing is read; a failed write leaves some prefix of the
    /// frame buffered.
    pub fn fill(&mut self, red: u8, green: u8, blue: u8) -> (r: Result<(), ClientError>)
        ensures
            final(self).width == old(self).width,
            final(self).height == old(self).height,
            final(self).transport.incoming() == old(self).transport.incoming(),
            r is Ok ==> final(self).transport.written() == old(self).transport.written()
                + wire::spec_encode(CommandModel::Fill { red, green, blue }),
            r is Err ==> r == Err::<(), ClientError>(ClientError::IoError) && (exists|k: int|
                0 <= k <= wire::spec_encode(CommandModel::Fill { red, green, blue }).len()
                    && final(self).transport.written() == old(self).transport.written()
                    + wire::spec_encode(CommandModel::Fill { red, green, blue }).take(k)),
            old(self).transport.reliable() ==> r is Ok && final(self).transport.reliable(),
    {
        let frame = wire::encode(&Command::Fill { red, green, blue });
        self.transport.write_all(frame.as_slice())
    }

    /// Fill a rectangular area with one color. As with [`Self::pixel`], no
    /// local bounds check: the remote device clamps. The frame is buffered;
    /// flush to send. Nothing is read; a failed write leaves some prefix
    /// of the frame buffered.
    pub fn rectangle(&mut self, x: u8, y: u8, width: u8, height: u8, red: u8, green: u8, blue: u8)
        -> (r: Result<(), ClientError>)
        ensures
            final(self).width == old(self).width,
            final(self).height == old(self).height,
            final(self).transport.incoming() == old(self).transport.incoming(),
            r is Ok ==> final(self).transport.written() == old(self).transport.written()
                + wire::spec_encode(
                CommandModel::Rectangle { x, y, width, height, red, green, blue },
            ),
            r is Err ==> r == Err::<(), ClientError>(ClientError::IoError) && (exists|k: int|
                0 <= k <= wire::spec_encode(
                    CommandModel::Rectangle { x, y, width, height, red, green, blue },
                ).len() && final(self).transport.written() == old(self).transport.written()
                    + wire::spec_encode(
                    CommandModel::Rectangle { x, y, width, height, red, green, blue },
                ).take(k)),
            old(self).transport.reliable() ==> r is Ok && final(self).transport.reliable(),
    {
        let frame = wire::encode(&Command::Rectangle { x, y, width, height, red, green, blue });
        self.transport.write_all(frame.as_slice())
    }

    /// Send an area full of colors. The area begins at the top left at
    /// `(x, y)` and moves first along the x axis, then along the y axis;
    /// the colors come in red, green, blue order, three bytes per pixel.
    ///
    /// This is the one command that validates locally before writing: the
    /// area must fit the matrix and the payload length must match exactly,
    /// else nothing is written. The frame is buffered; flush to send.
    /// Nothing is read; a failed write leaves some prefix of the frame
    /// buffered.
    pub fn contiguous(&mut self, x: u8, y: u8, width: u8, height: u8, colors: &[u8]) -> (r: Result<
        (),
        ClientError,
    >)
        ensures
            final(self).width == old(self).width,
            final(self).height == old(self).height,
            final(self).transport.incoming() == old(self).transport.incoming(),
            match r {
                Ok(()) => area_fits(old(self).width, old(self).height, x, y, width, height)
                    && colors@.len() == 3 * (width as int) * (height as int) && final(
                    self).transport.written() == old(self).transport.written() + wire::spec_encode(
                    CommandModel::Contiguous { x, y, width, height, colors: colors@ },
                ),
                Err(ClientError::AreaTooLarge) => !area_fits(
                    old(self).width,
                    old(self).height,
                    x,
                    y,
                    width,
                    height,
                ) && *final(self) == *old(self),
                Err(ClientError::WrongColorLength) => area_fits(
                    old(self).width,
                    old(self).height,
                    x,
                    y,
                    width,
                    height,
                ) && colors@.len() != 3 * (width as int) * (height as int) && *final(self) == *old(
                    self,
                ),
                Err(ClientError::IoError) => area_fits(
                    old(self).width,
                    old(self).height,
                    x,
                    y,
                    width,
                    height,
                ) && colors@.len() == 3 * (width as int) * (height as int) && (exists|k: int|
                    0 <= k <= wire::spec_encode(
                        CommandModel::Contiguous { x, y, width, height, colors: colors@ },
                    ).len() && final(self).transport.written() == old(self).transport.written()
                        + wire::spec_encode(
                        CommandModel::Contiguous { x, y, width, height, colors: colors@ },
                    ).take(k)),
                Err(_) => false,
            },
            old(self).transport.reliable() ==> final(self).transport.reliable() && (r is Ok
                <==> area_fits(old(self).width, old(self).height, x, y, width, height)
                && colors@.len() == 3 * (width as int) * (height as int)),
    {
        let ghost frame = wire::spec_encode(
            CommandModel::Contiguous { x, y, width, height, colors: colors@ },
        );
        match contiguous_check(self.width, self.height, x, y, width, height, colors.len()) {
            Ok(()) => {},
            Err(e) => {
                return Err(e);
            },
        }
        let header: Vec<u8> = vec![wire::CONTIGUOUS_TAG, x, y, width, height];
        match self.transport.write_all(header.as_slice()) {
            Ok(()) => {},
            Err(e) => {
                proof {
                    let k = choose|k: int|
                        0 <= k <= header@.len() && self.transport.written() == old(
                            self,
                        ).transport.written() + header@.take(k);
                    assert(frame.take(k) =~= header@.take(k));
                    assert(0 <= k <= frame.len() && self.transport.written() == old(
                        self,
                    ).transport.written() + frame.take(k));
                }
                return Err(e);
            },
        }
        let ghost after_header = self.transport.written();
        match self.transport.write_all(colors) {
            Ok(()) => {
                proof {
                    assert(self.transport.written() =~= old(self).transport.written() + frame);
                }
                Ok(())
            },
            Err(e) => {
                proof {
                    let k = choose|k: int|
                        0 <= k <= colors@.len() && self.transport.written() == after_header
                            + colors@.take(k);
                    assert(frame.take(5 + k) =~= header@ + colors@.take(k));
                    assert(self.transport.written() =~= old(self).transport.written() + frame.take(
                        5 + k,
                    ));
                    assert(0 <= 5 + k <= frame.len() && self.transport.written() == old(
                        self,
                    ).transport.written() + frame.take(5 + k));
                }
                Err(e)
            },
        }
    }
}

} // verus!
