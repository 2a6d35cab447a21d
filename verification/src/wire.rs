//! The wire protocol: the handshake shape and the command byte layouts.
//!
//! Every drawing instruction travels as one self-contained frame: a tag byte
//! followed by its payload. The tag values are the wire contract and must
//! never change without bumping the handshake's protocol-version byte.

use vstd::prelude::*;

verus! {

/// The protocol version this client speaks; the first byte of the handshake.
pub const PROTOCOL_VERSION: u8 = 1;

/// Tag byte opening a `Fill` frame.
pub const FILL_TAG: u8 = 1;

/// Tag byte opening a `Pixel` frame.
pub const PIXEL_TAG: u8 = 2;

/// Tag byte opening a `Rectangle` frame.
pub const RECTANGLE_TAG: u8 = 3;

/// Tag byte opening a `Contiguous` frame.
pub const CONTIGUOUS_TAG: u8 = 4;

/// One drawing instruction, as it is framed on the wire.
///
/// A `Contiguous` block carries its colors in row-major order, `x` varying
/// fastest, three bytes (red, green, blue) per pixel.
#[derive(Clone, Debug, PartialEq, Eq)]
pub enum Command {
    Fill { red: u8, green: u8, blue: u8 },
    Pixel { x: u8, y: u8, red: u8, green: u8, blue: u8 },
    Rectangle { x: u8, y: u8, width: u8, height: u8, red: u8, green: u8, blue: u8 },
    Contiguous { x: u8, y: u8, width: u8, height: u8, colors: Vec<u8> },
}

/// The mathematical model of a [`Command`]: the same shape, with the color
/// payload as a sequence.
pub enum CommandModel {
    Fill { red: u8, green: u8, blue: u8 },
    Pixel { x: u8, y: u8, red: u8, green: u8, blue: u8 },
    Rectangle { x: u8, y: u8, width: u8, height: u8, red: u8, green: u8, blue: u8 },
    Contiguous { x: u8, y: u8, width: u8, height: u8, colors: Seq<u8> },
}

impl View for Command {
    type V = CommandModel;

    open spec fn view(&self) -> CommandModel {
        match self {
            Command::Fill { red, green, blue } => CommandModel::Fill {
                red: *red,
                green: *green,
                blue: *blue,
            },
            Command::Pixel { x, y, red, green, blue } => CommandModel::Pixel {
                x: *x,
                y: *y,
                red: *red,
                green: *green,
                blue: *blue,
            },
            Command::Rectangle { x, y, width, height, red, green, blue } => {
                CommandModel::Rectangle {
                    x: *x,
                    y: *y,
                    width: *width,
                    height: *height,
                    red: *red,
                    green: *green,
                    blue: *blue,
                }
            },
            Command::Contiguous { x, y, width, height, colors } => CommandModel::Contiguous {
                x: *x,
                y: *y,
                width: *width,
                height: *height,
                colors: colors@,
            },
        }
    }
}

impl CommandModel {
    /// A command that can stand on the wire. A contiguous block must carry
    /// exactly three color bytes per pixel of its area; the receiver has no
    /// length prefix to resynchronise from, so any other payload length
    /// corrupts the framing of everything that follows.
    pub open spec fn wf(self) -> bool {
        match self {
            CommandModel::Contiguous { width, height, colors, .. } => colors.len() == 3 * (
            width as int) * (height as int),
            _ => true,
        }
    }
}

/// The exact byte frame of a command.
pub open spec fn spec_encode(c: CommandModel) -> Seq<u8> {
    match c {
        CommandModel::Fill { red, green, blue } => seq![FILL_TAG, red, green, blue],
        CommandModel::Pixel { x, y, red, green, blue } => seq![PIXEL_TAG, x, y, red, green, blue],
        CommandModel::Rectangle { x, y, width, height, red, green, blue } => seq![
            RECTANGLE_TAG,
            x,
            y,
            width,
            height,
            red,
            green,
            blue,
        ],
        CommandModel::Contiguous { x, y, width, height, colors } => seq![
            CONTIGUOUS_TAG,
            x,
            y,
            width,
            height,
        ] + colors,
    }
}

/// The command a byte sequence frames, if it frames one.
pub open spec fn spec_decode(bytes: Seq<u8>) -> Option<CommandModel> {
    if bytes.len() == 4 && bytes[0] == FILL_TAG {
        Some(CommandModel::Fill { red: bytes[1], green: bytes[2], blue: bytes[3] })
    } else if bytes.len() == 6 && bytes[0] == PIXEL_TAG {
        Some(
            CommandModel::Pixel {
                x: bytes[1],
                y: bytes[2],
                red: bytes[3],
                green: bytes[4],
                blue: bytes[5],
            },
        )
    } else if bytes.len() == 8 && bytes[0] == RECTANGLE_TAG {
        Some(
            CommandModel::Rectangle {
                x: bytes[1],
                y: bytes[2],
                width: bytes[3],
                height: bytes[4],
                red: bytes[5],
                green: bytes[6],
                blue: bytes[7],
            },
        )
    } else if bytes.len() >= 5 && bytes[0] == CONTIGUOUS_TAG && bytes.len() == 5 + 3 * (
    bytes[3] as int) * (bytes[4] as int) {
        Some(
            CommandModel::Contiguous {
                x: bytes[1],
                y: bytes[2],
                width: bytes[3],
                height: bytes[4],
                colors: bytes.skip(5),
            },
        )
    } else {
        None
    }
}

/// Round trip: decoding the frame of any well-formed command yields exactly
/// that command back.
pub proof fn lemma_round_trip(c: CommandModel)
    requires
        c.wf(),
    ensures
        spec_decode(spec_encode(c)) == Some(c),
{
    match c {
        CommandModel::Contiguous { x, y, width, height, colors } => {
            assert(spec_encode(c).skip(5) =~= colors);
        },
        _ => {},
    }
}

/// The decoder accepts nothing but genuine frames: whatever it yields for
/// some bytes is well formed and encodes back to exactly those bytes.
pub proof fn lemma_decode_exact(bytes: Seq<u8>, c: CommandModel)
    requires
        spec_decode(bytes) == Some(c),
    ensures
        c.wf(),
        spec_encode(c) == bytes,
{
    assert(spec_encode(c) =~= bytes);
}

/// Two distinct well-formed commands never share a frame: the wire is
/// unambiguous.
pub proof fn lemma_encode_injective(c1: CommandModel, c2: CommandModel)
    requires
        c1.wf(),
        c2.wf(),
        spec_encode(c1) == spec_encode(c2),
    ensures
        c1 == c2,
{
    lemma_round_trip(c1);
    lemma_round_trip(c2);
}

/// Encode a command into its wire frame.
pub fn encode(c: &Command) -> (frame: Vec<u8>)
    ensures
        frame@ == spec_encode(c@),
{
    match c {
        Command::Fill { red, green, blue } => {
            let frame: Vec<u8> = vec![FILL_TAG, *red, *green, *blue];
            assert(frame@ =~= spec_encode(c@));
            frame
        },
        Command::Pixel { x, y, red, green, blue } => {
            let frame: Vec<u8> = vec![PIXEL_TAG, *x, *y, *red, *green, *blue];
            assert(frame@ =~= spec_encode(c@));
            frame
        },
        Command::Rectangle { x, y, width, height, red, green, blue } => {
            let frame: Vec<u8> = vec![RECTANGLE_TAG, *x, *y, *width, *height, *red, *green, *blue];
            assert(frame@ =~= spec_encode(c@));
            frame
        },
        Command::Contiguous { x, y, width, height, colors } => {
            let mut frame: Vec<u8> = vec![CONTIGUOUS_TAG, *x, *y, *width, *height];
            frame.extend_from_slice(colors.as_slice());
            assert(frame@ =~= spec_encode(c@));
            frame
        },
    }
}

/// Decode one frame back into the command it stands for.
///
/// Returns `None` exactly when the bytes are not the frame of any
/// well-formed command.
pub fn decode(bytes: &[u8]) -> (r: Option<Command>)
    ensures
        r matches Some(c) ==> spec_decode(bytes@) == Some(c@) && c@.wf(),
        r is None ==> spec_decode(bytes@) is None,
{
    if bytes.len() == 4 && bytes[0] == FILL_TAG {
        Some(Command::Fill { red: bytes[1], green: bytes[2], blue: bytes[3] })
    } else if bytes.len() == 6 && bytes[0] == PIXEL_TAG {
        Some(
            Command::Pixel {
                x: bytes[1],
                y: bytes[2],
                red: bytes[3],
                green: bytes[4],
                blue: bytes[5],
            },
        )
    } else if bytes.len() == 8 && bytes[0] == RECTANGLE_TAG {
        Some(
            Command::Rectangle {
                x: bytes[1],
                y: bytes[2],
                width: bytes[3],
                height: bytes[4],
                red: bytes[5],
                green: bytes[6],
                blue: bytes[7],
            },
        )
    } else if bytes.len() >= 5 && bytes[0] == CONTIGUOUS_TAG {
        let width = bytes[3];
        let height = bytes[4];
        proof {
            assert(3 * (width as int) * (height as int) <= 195075) by (nonlinear_arith)
                requires
                    width <= 255,
                    height <= 255,
            ;
        }
        let expected: usize = 3 * (width as usize) * (height as usize);
        if bytes.len() == 5 + expected {
            let mut colors: Vec<u8> = Vec::new();
            let mut i: usize = 5;
            while i < bytes.len()
                invariant
                    5 <= i <= bytes.len(),
                    colors@ == bytes@.subrange(5, i as int),
                decreases bytes.len() - i,
            {
                let b = bytes[i];
                colors.push(b);
                proof {
                    assert(colors@ =~= bytes@.subrange(5, i + 1));
                }
                i = i + 1;
            }
            proof {
                assert(colors@ =~= bytes@.skip(5));
            }
            Some(Command::Contiguous { x: bytes[1], y: bytes[2], width, height, colors })
        } else {
            None
        }
    } else {
        None
    }
}

} // verus!
