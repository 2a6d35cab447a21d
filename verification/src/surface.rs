//! The drawing surface: the client as a generic 2-D raster target.
//!
//! External drawing routines produce points, areas and colors without
//! knowing the wire protocol; the operations here translate that geometry
//! into wire commands, clipping everything against the matrix bounds.
//! None of them flushes — batching across calls stays with the caller,
//! exactly as with the raw drawing primitives.

use crate::client::Client;
use crate::error::ClientError;
use crate::geometry::{spec_intersection, Area, Point, Rgb, Size};
use crate::transport::Transport;
use crate::wire;
use crate::wire::CommandModel;
use vstd::arithmetic::div_mod::{lemma_mod_bound, lemma_multiply_divide_lt};
use vstd::math::min;
use vstd::prelude::*;

verus! {

/// The color bytes a clipped area-fill sends. Each of the first `n` points
/// of the requested area — row-major order, x varying fastest — is paired
/// with the color of the same rank; the pairs whose point lies in the
/// drawable area are kept, and their colors flattened to red, green, blue
/// bytes in order.
pub open spec fn spec_clipped_colors(area: Area, drawable: Area, colors: Seq<Rgb>, n: int) -> Seq<
    u8,
>
    decreases n,
{
    if n <= 0 {
        Seq::<u8>::empty()
    } else {
        let i = n - 1;
        let x = area.top_left.x + (i % (area.size.width as int));
        let y = area.top_left.y + (i / (area.size.width as int));
        spec_clipped_colors(area, drawable, colors, i) + if drawable.spec_contains_xy(x, y) {
            seq![colors[i].red, colors[i].green, colors[i].blue]
        } else {
            Seq::<u8>::empty()
        }
    }
}

/// How many point/color pairs an area fill considers: one per pixel of the
/// requested area, or fewer when the supplied colors run out first.
pub open spec fn spec_pair_count(area: Area, colors: Seq<Rgb>) -> int {
    min((area.size.width as int) * (area.size.height as int), colors.len() as int)
}

/// The wire bytes one listed point issues on a `w` by `h` matrix: its
/// pixel frame when it lies on the matrix, nothing when it lies outside.
pub open spec fn spec_point_frame(p: Point, c: Rgb, w: u8, h: u8) -> Seq<u8> {
    if 0 <= p.x < w && 0 <= p.y < h {
        wire::spec_encode(
            CommandModel::Pixel {
                x: p.x as u8,
                y: p.y as u8,
                red: c.red,
                green: c.green,
                blue: c.blue,
            },
        )
    } else {
        Seq::<u8>::empty()
    }
}

/// The wire bytes that drawing a list of points issues: one pixel frame
/// for each listed point lying on a `w` by `h` matrix, in list order;
/// the points outside contribute nothing.
pub open spec fn spec_point_frames(pixels: Seq<(Point, Rgb)>, w: u8, h: u8) -> Seq<u8>
    decreases pixels.len(),
{
    if pixels.len() == 0 {
        Seq::<u8>::empty()
    } else {
        let (p, c) = pixels.last();
        spec_point_frames(pixels.drop_last(), w, h) + spec_point_frame(p, c, w, h)
    }
}

impl<T: Transport> Client<T> {
    /// The matrix as an area: the canvas every surface operation clips
    /// against.
    pub open spec fn spec_bounding_box(&self) -> Area {
        Area {
            top_left: Point { x: 0, y: 0 },
            size: Size { width: self.width as u32, height: self.height as u32 },
        }
    }

    /// The matrix as an area anchored at the origin.
    pub fn bounding_box(&self) -> (r: Area)
        ensures
            r == self.spec_bounding_box(),
    {
        Area::new(0, 0, self.width as u32, self.height as u32)
    }

    /// The dimensions the surface reports to drawing routines.
    pub fn size(&self) -> (r: Size)
        ensures
            r == (Size { width: self.width as u32, height: self.height as u32 }),
    {
        Size { width: self.width as u32, height: self.height as u32 }
    }

    /// Draw a set of points: one pixel command for each point inside the
    /// matrix bounds, in list order; points outside are silently dropped.
    /// Unlike raw [`Client::pixel`], which passes coordinates through
    /// unchecked, clipping here is mandatory: generic drawing algorithms
    /// produce out-of-canvas geometry routinely.
    ///
    /// A failure stops the iteration at the failing point: the frames of
    /// the in-bounds points before it remain buffered, followed by some
    /// prefix of the failing point's own frame — partial failure, no
    /// rollback. Nothing is read, whatever the outcome.
    pub fn draw_points(&mut self, pixels: &[(Point, Rgb)]) -> (r: Result<(), ClientError>)
        ensures
            final(self).width == old(self).width,
            final(self).height == old(self).height,
            final(self).transport.incoming() == old(self).transport.incoming(),
            r is Ok ==> final(self).transport.written() == old(self).transport.written()
                + spec_point_frames(pixels@, old(self).width, old(self).height),
            r is Err ==> r == Err::<(), ClientError>(ClientError::IoError) && (exists|
                j: int,
                k: int,
            |
                0 <= j < pixels@.len() && 0 <= k <= spec_point_frame(
                    pixels@[j].0,
                    pixels@[j].1,
                    old(self).width,
                    old(self).height,
                ).len() && final(self).transport.written() == old(self).transport.written()
                    + spec_point_frames(pixels@.take(j), old(self).width, old(self).height)
                    + spec_point_frame(
                    pixels@[j].0,
                    pixels@[j].1,
                    old(self).width,
                    old(self).height,
                ).take(k)),
            old(self).transport.reliable() ==> r is Ok && final(self).transport.reliable(),
    {
        let ghost w0 = self.width;
        let ghost h0 = self.height;
        let ghost written0 = self.transport.written();
        let ghost incoming0 = self.transport.incoming();
        let bounds = self.bounding_box();
        let mut i: usize = 0;
        while i < pixels.len()
            invariant
                i <= pixels@.len(),
                w0 == old(self).width,
                h0 == old(self).height,
                written0 == old(self).transport.written(),
                incoming0 == old(self).transport.incoming(),
                self.width == w0,
                self.height == h0,
                bounds == (Area {
                    top_left: Point { x: 0, y: 0 },
                    size: Size { width: w0 as u32, height: h0 as u32 },
                }),
                self.transport.written() == written0 + spec_point_frames(
                    pixels@.take(i as int),
                    w0,
                    h0,
                ),
                self.transport.incoming() == incoming0,
                old(self).transport.reliable() ==> self.transport.reliable(),
            decreases pixels@.len() - i,
        {
            let (p, c) = pixels[i];
            proof {
                assert(pixels@.take(i + 1).drop_last() =~= pixels@.take(i as int));
                assert(pixels@.take(i + 1).last() == pixels@[i as int]);
            }
            if bounds.contains(p) {
                match self.pixel(p.x as u8, p.y as u8, c.red, c.green, c.blue) {
                    Ok(()) => {},
                    Err(e) => {
                        proof {
                            let frame_i = wire::spec_encode(
                                CommandModel::Pixel {
                                    x: p.x as u8,
                                    y: p.y as u8,
                                    red: c.red,
                                    green: c.green,
                                    blue: c.blue,
                                },
                            );
                            assert(spec_point_frame(pixels@[i as int].0, pixels@[i as int].1, w0, h0)
                                == frame_i);
                            let k = choose|k: int|
                                0 <= k <= frame_i.len() && self.transport.written() == (written0
                                    + spec_point_frames(pixels@.take(i as int), w0, h0))
                                    + frame_i.take(k);
                            assert(self.transport.written() =~= written0 + spec_point_frames(
                                pixels@.take(i as int),
                                w0,
                                h0,
                            ) + frame_i.take(k));
                            assert(0 <= i < pixels@.len() && 0 <= k <= spec_point_frame(
                                pixels@[i as int].0,
                                pixels@[i as int].1,
                                w0,
                                h0,
                            ).len() && self.transport.written() == written0 + spec_point_frames(
                                pixels@.take(i as int),
                                w0,
                                h0,
                            ) + spec_point_frame(
                                pixels@[i as int].0,
                                pixels@[i as int].1,
                                w0,
                                h0,
                            ).take(k));
                        }
                        return Err(e);
                    },
                }
            }
            proof {
                assert(self.transport.written() =~= written0 + spec_point_frames(
                    pixels@.take(i + 1),
                    w0,
                    h0,
                ));
            }
            i = i + 1;
        }
        proof {
            assert(pixels@.take(pixels@.len() as int) =~= pixels@);
        }
        Ok(())
    }

    /// Fill an area with per-pixel colors: intersect the area with the
    /// matrix bounds, succeed as a no-op when nothing overlaps, and
    /// otherwise keep only the colors of the points inside the overlap and
    /// issue one contiguous command for it. The colors pair with the
    /// requested area's points in row-major order, x varying fastest; when
    /// they cover some clipped-away or missing part of the overlap, the
    /// contiguous payload check fails with
    /// [`ClientError::WrongColorLength`]. Nothing is read; a failed write
    /// leaves some prefix of the contiguous frame buffered.
    pub fn fill_rectangular_area(&mut self, area: &Area, colors: &[Rgb]) -> (r: Result<
        (),
        ClientError,
    >)
        ensures
            final(self).width == old(self).width,
            final(self).height == old(self).height,
            final(self).transport.incoming() == old(self).transport.incoming(),
            ({
                let drawable = spec_intersection(*area, old(self).spec_bounding_box());
                let clipped = spec_clipped_colors(
                    *area,
                    drawable,
                    colors@,
                    spec_pair_count(*area, colors@),
                );
                let frame = wire::spec_encode(
                    CommandModel::Contiguous {
                        x: drawable.top_left.x as u8,
                        y: drawable.top_left.y as u8,
                        width: drawable.size.width as u8,
                        height: drawable.size.height as u8,
                        colors: clipped,
                    },
                );
                match r {
                    Ok(()) => if drawable.spec_is_empty() {
                        *final(self) == *old(self)
                    } else {
                        clipped.len() == 3 * (drawable.size.width as int) * (
                        drawable.size.height as int) && final(self).transport.written() == old(
                            self,
                        ).transport.written() + frame
                    },
                    Err(ClientError::WrongColorLength) => !drawable.spec_is_empty()
                        && clipped.len() != 3 * (drawable.size.width as int) * (
                    drawable.size.height as int) && *final(self) == *old(self),
                    Err(ClientError::IoError) => !drawable.spec_is_empty() && clipped.len() == 3 * (
                    drawable.size.width as int) * (drawable.size.height as int) && (exists|k: int|
                        0 <= k <= frame.len() && final(self).transport.written() == old(
                            self,
                        ).transport.written() + frame.take(k)),
                    Err(_) => false,
                }
            }),
            old(self).transport.reliable() ==> final(self).transport.reliable() && ({
                let drawable = spec_intersection(*area, old(self).spec_bounding_box());
                let clipped = spec_clipped_colors(
                    *area,
                    drawable,
                    colors@,
                    spec_pair_count(*area, colors@),
                );
                r is Ok <==> drawable.spec_is_empty() || clipped.len() == 3 * (
                drawable.size.width as int) * (drawable.size.height as int)
            }),
    {
        let bounds = self.bounding_box();
        let drawable = area.intersection(&bounds);
        if drawable.is_zero_sized() {
            return Ok(());
        }
        proof {
            assert((area.size.width as int) * (area.size.height as int) < 0x1_0000_0000_0000_0000)
                by (nonlinear_arith)
                requires
                    area.size.width < 0x1_0000_0000,
                    area.size.height < 0x1_0000_0000,
            ;
        }
        let total: u64 = (area.size.width as u64) * (area.size.height as u64);
        let n: usize = if total <= (colors.len() as u64) {
            total as usize
        } else {
            colors.len()
        };
        let mut out: Vec<u8> = Vec::new();
        let mut idx: usize = 0;
        while idx < n
            invariant
                idx <= n,
                n as int == spec_pair_count(*area, colors@),
                n <= colors@.len(),
                area.size.width > 0,
                *self == *old(self),
                drawable == spec_intersection(*area, old(self).spec_bounding_box()),
                !drawable.spec_is_empty(),
                out@ == spec_clipped_colors(*area, drawable, colors@, idx as int),
            decreases n - idx,
        {
            proof {
                lemma_mod_bound(idx as int, area.size.width as int);
                lemma_multiply_divide_lt(
                    idx as int,
                    area.size.width as int,
                    area.size.height as int,
                );
            }
            let w64: u64 = area.size.width as u64;
            let cx: u64 = (idx as u64) % w64;
            let ry: u64 = (idx as u64) / w64;
            let px: i64 = (area.top_left.x as i64) + (cx as i64);
            let py: i64 = (area.top_left.y as i64) + (ry as i64);
            let inside = px >= (drawable.top_left.x as i64) && px < (drawable.top_left.x as i64) + (
            drawable.size.width as i64) && py >= (drawable.top_left.y as i64) && py < (
            drawable.top_left.y as i64) + (drawable.size.height as i64);
            if inside {
                let c = colors[idx];
                out.push(c.red);
                out.push(c.green);
                out.push(c.blue);
            }
            proof {
                assert(out@ =~= spec_clipped_colors(*area, drawable, colors@, idx + 1));
            }
            idx = idx + 1;
        }
        self.contiguous(
            drawable.top_left.x as u8,
            drawable.top_left.y as u8,
            drawable.size.width as u8,
            drawable.size.height as u8,
            out.as_slice(),
        )
    }

    /// Fill an area with one color: a single rectangle command for the
    /// area clipped to the matrix bounds, or a successful no-op when the
    /// clipped area is empty. Nothing is read; a failed write leaves some
    /// prefix of the rectangle frame buffered.
    pub fn fill_solid_area(&mut self, area: &Area, color: Rgb) -> (r: Result<(), ClientError>)
        ensures
            final(self).width == old(self).width,
            final(self).height == old(self).height,
            final(self).transport.incoming() == old(self).transport.incoming(),
            ({
                let drawable = spec_intersection(*area, old(self).spec_bounding_box());
                let frame = wire::spec_encode(
                    CommandModel::Rectangle {
                        x: drawable.top_left.x as u8,
                        y: drawable.top_left.y as u8,
                        width: drawable.size.width as u8,
                        height: drawable.size.height as u8,
                        red: color.red,
                        green: color.green,
                        blue: color.blue,
                    },
                );
                match r {
                    Ok(()) => if drawable.spec_is_empty() {
                        *final(self) == *old(self)
                    } else {
                        final(self).transport.written() == old(self).transport.written() + frame
                    },
                    Err(e) => e == ClientError::IoError && !drawable.spec_is_empty() && (exists|
                        k: int,
                    |
                        0 <= k <= frame.len() && final(self).transport.written() == old(
                            self,
                        ).transport.written() + frame.take(k)),
                }
            }),
            old(self).transport.reliable() ==> r is Ok && final(self).transport.reliable(),
    {
        let bounds = self.bounding_box();
        let drawable = area.intersection(&bounds);
        if drawable.is_zero_sized() {
            return Ok(());
        }
        self.rectangle(
            drawable.top_left.x as u8,
            drawable.top_left.y as u8,
            drawable.size.width as u8,
            drawable.size.height as u8,
            color.red,
            color.green,
            color.blue,
        )
    }

    /// Clear the whole matrix to one color: a single fill command.
    /// Nothing is read; a failed write leaves some prefix of the fill
    /// frame buffered.
    pub fn clear(&mut self, color: Rgb) -> (r: Result<(), ClientError>)
        ensures
            final(self).width == old(self).width,
            final(self).height == old(self).height,
            final(self).transport.incoming() == old(self).transport.incoming(),
            r is Ok ==> final(self).transport.written() == old(self).transport.written()
                + wire::spec_encode(
                CommandModel::Fill { red: color.red, green: color.green, blue: color.blue },
            ),
            r is Err ==> r == Err::<(), ClientError>(ClientError::IoError) && (exists|k: int|
                0 <= k <= wire::spec_encode(
                    CommandModel::Fill { red: color.red, green: color.green, blue: color.blue },
                ).len() && final(self).transport.written() == old(self).transport.written()
                    + wire::spec_encode(
                    CommandModel::Fill { red: color.red, green: color.green, blue: color.blue },
                ).take(k)),
            old(self).transport.reliable() ==> r is Ok && final(self).transport.reliable(),
    {
        self.fill(color.red, color.green, color.blue)
    }
}

} // verus!
