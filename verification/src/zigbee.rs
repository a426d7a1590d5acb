//! The low-level light-state command codec.
//!
//! A builder accumulates a pending change (power, brightness, single
//! color, color temperature, multi-point gradient) and an encoder
//! serializes it into the compact fixed-layout byte buffer consumed by
//! gradient-capable luminaires. Validation is strict: either the full
//! buffer is produced, or an error and no output at all.

use vstd::prelude::*;

use crate::gamut::{spec_clamp, ColorGamut, XY};

verus! {

/// How an ordered list of colors maps onto a luminaire's physical
/// segments: sequential, reflected about the midpoint, or distributed
/// non-sequentially.
#[derive(Clone, Copy, Debug, PartialEq, Eq, Structural)]
pub enum GradientStyle {
    Linear,
    Mirrored,
    Scattered,
}

/// The style byte of the wire format.
pub open spec fn spec_style_code(s: GradientStyle) -> u8 {
    match s {
        GradientStyle::Linear => 0,
        GradientStyle::Mirrored => 1,
        GradientStyle::Scattered => 2,
    }
}

impl GradientStyle {
    /// The wire code of this style.
    pub fn code(&self) -> (c: u8)
        ensures
            c == spec_style_code(*self),
    {
        match self {
            GradientStyle::Linear => 0,
            GradientStyle::Mirrored => 1,
            GradientStyle::Scattered => 2,
        }
    }
}

/// How compressed the color transition is across physical segments
/// (`scale`) and at which physical segment the pattern begins (`offset`).
#[derive(Clone, Copy, Debug, PartialEq, Eq, Structural)]
pub struct GradientParams {
    pub scale: u8,
    pub offset: u8,
}

/// A gradient: a style, an ordered sequence of gamut-clamped colors, and
/// the scale/offset parameters.
#[derive(Clone, Debug)]
pub struct GradientDescriptor {
    pub style: GradientStyle,
    pub points: Vec<XY>,
    pub params: GradientParams,
}

/// The mathematical value of a [`GradientDescriptor`].
pub struct GradientView {
    pub style: GradientStyle,
    pub points: Seq<XY>,
    pub params: GradientParams,
}

impl View for GradientDescriptor {
    type V = GradientView;

    open spec fn view(&self) -> GradientView {
        GradientView { style: self.style, points: self.points@, params: self.params }
    }
}

/// Why a light-state change was rejected.
#[derive(Clone, Copy, Debug, PartialEq, Eq, Structural)]
pub enum EncodeError {
    /// A gradient asked for more points than the hardware addresses.
    GradientTooLong { attempted: usize, max: usize },
    /// A gradient style was set with no points at all.
    EmptyGradient,
    /// Brightness 255 is reserved by the addressed hardware's
    /// level-control convention.
    BrightnessOutOfRange,
    /// Color temperature outside the luminaire range of 153..=500 mirek.
    MirekOutOfRange,
}

/// An accumulator of optional light-state fields, populated through the
/// fluent setters and consumed once by [`HueZigbeeUpdate::to_bytes`].
#[derive(Clone, Debug)]
pub struct HueZigbeeUpdate {
    pub on_off: Option<bool>,
    pub brightness: Option<u8>,
    pub color: Option<XY>,
    pub color_temperature: Option<u16>,
    pub gradient: Option<GradientDescriptor>,
}

/// The mathematical value of a [`HueZigbeeUpdate`].
pub struct UpdateView {
    pub on_off: Option<bool>,
    pub brightness: Option<u8>,
    pub color: Option<XY>,
    pub color_temperature: Option<u16>,
    pub gradient: Option<GradientView>,
}

impl View for HueZigbeeUpdate {
    type V = UpdateView;

    open spec fn view(&self) -> UpdateView {
        UpdateView {
            on_off: self.on_off,
            brightness: self.brightness,
            color: self.color,
            color_temperature: self.color_temperature,
            gradient: match self.gradient {
                Some(g) => Some(g@),
                None => None,
            },
        }
    }
}

/// The two bytes of a 16-bit value, little-endian.
pub open spec fn spec_u16_le(v: u16) -> Seq<u8> {
    seq![(v % 256) as u8, (v / 256) as u8]
}

/// The four bytes of a chromaticity point: x then y, each little-endian.
pub open spec fn spec_xy_bytes(p: XY) -> Seq<u8> {
    spec_u16_le(p.x) + spec_u16_le(p.y)
}

/// The concatenated point encodings of a gradient.
pub open spec fn spec_points_bytes(pts: Seq<XY>) -> Seq<u8>
    decreases pts.len(),
{
    if pts.len() == 0 {
        Seq::empty()
    } else {
        spec_xy_bytes(pts[0]) + spec_points_bytes(pts.drop_first())
    }
}

/// The gradient block: style code, point count, the points, then scale
/// and offset.
pub open spec fn spec_gradient_bytes(g: GradientView) -> Seq<u8> {
    seq![spec_style_code(g.style), g.points.len() as u8] + spec_points_bytes(g.points)
        + seq![g.params.scale, g.params.offset]
}

/// The flags byte: one bit per optional field in fixed order — bit 0
/// power, bit 1 brightness, bit 2 single color, bit 3 color temperature,
/// bit 4 gradient.
pub open spec fn spec_flags(u: UpdateView) -> u8 {
    ((if u.on_off is Some { 1int } else { 0 }) + (if u.brightness is Some { 2int } else { 0 })
        + (if u.color is Some { 4int } else { 0 }) + (if u.color_temperature is Some {
        8int
    } else {
        0
    }) + (if u.gradient is Some { 16int } else { 0 })) as u8
}

/// The whole wire buffer: the flags byte, then each present field in
/// ascending bit order; absent fields contribute no bytes.
pub open spec fn spec_encode(u: UpdateView) -> Seq<u8> {
    seq![spec_flags(u)] + (match u.on_off {
        Some(b) => seq![if b { 1u8 } else { 0u8 }],
        None => Seq::empty(),
    }) + (match u.brightness {
        Some(v) => seq![v],
        None => Seq::empty(),
    }) + (match u.color {
        Some(p) => spec_xy_bytes(p),
        None => Seq::empty(),
    }) + (match u.color_temperature {
        Some(m) => spec_u16_le(m),
        None => Seq::empty(),
    }) + (match u.gradient {
        Some(g) => spec_gradient_bytes(g),
        None => Seq::empty(),
    })
}

/// Brightness, if present, must be in 0..=254.
pub open spec fn spec_brightness_ok(u: UpdateView) -> bool {
    match u.brightness {
        Some(b) => b <= 254,
        None => true,
    }
}

/// Color temperature, if present, must be in 153..=500 mirek.
pub open spec fn spec_mirek_ok(u: UpdateView) -> bool {
    match u.color_temperature {
        Some(m) => 153 <= m <= 500,
        None => true,
    }
}

/// A gradient, if present, must carry 1..=9 points.
pub open spec fn spec_gradient_ok(u: UpdateView) -> bool {
    match u.gradient {
        Some(g) => 1 <= g.points.len() <= 9,
        None => true,
    }
}

fn push_gradient(out: &mut Vec<u8>, g: &GradientDescriptor)
    requires
        g.points@.len() <= 9,
    ensures
        final(out)@ == old(out)@ + spec_gradient_bytes(g@),
{
    out.push(g.style.code());
    out.push(g.points.len() as u8);
    let ghost mid = out@;
    let mut j: usize = 0;
    while j < g.points.len()
        invariant
            0 <= j <= g.points@.len(),
            out@ == mid + spec_points_bytes(g.points@.take(j as int)),
        decreases g.points@.len() - j,
    {
        push_xy(out, g.points[j]);
        proof {
            lemma_points_bytes_take_succ(g.points@, j as int);
            assert(out@ == mid + spec_points_bytes(g.points@.take(j as int)) + spec_xy_bytes(
                g.points@[j as int],
            ));
            assert(mid + spec_points_bytes(g.points@.take(j + 1)) =~= mid + spec_points_bytes(
                g.points@.take(j as int),
            ) + spec_xy_bytes(g.points@[j as int]));
        }
        j = j + 1;
    }
    proof {
        assert(g.points@.take(g.points@.len() as int) =~= g.points@);
    }
    out.push(g.params.scale);
    out.push(g.params.offset);
    assert(out@ =~= old(out)@ + spec_gradient_bytes(g@));
}

fn push_u16_le(out: &mut Vec<u8>, v: u16)
    ensures
        final(out)@ == old(out)@ + spec_u16_le(v),
{
    out.push((v % 256) as u8);
    out.push((v / 256) as u8);
    assert(out@ =~= old(out)@ + spec_u16_le(v));
}

fn push_xy(out: &mut Vec<u8>, p: XY)
    ensures
        final(out)@ == old(out)@ + spec_xy_bytes(p),
{
    push_u16_le(out, p.x);
    push_u16_le(out, p.y);
    assert(out@ =~= old(out)@ + spec_xy_bytes(p));
}

proof fn lemma_points_bytes_take_succ(pts: Seq<XY>, i: int)
    requires
        0 <= i < pts.len(),
    ensures
        spec_points_bytes(pts.take(i + 1)) == spec_points_bytes(pts.take(i)) + spec_xy_bytes(
            pts[i],
        ),
    decreases i,
{
    if i == 0 {
        assert(pts.take(0) =~= Seq::<XY>::empty());
        assert(pts.take(1) =~= seq![pts[0]]);
        assert(pts.take(1).drop_first() =~= Seq::<XY>::empty());
        assert(spec_points_bytes(pts.take(1)) =~= spec_points_bytes(pts.take(0)) + spec_xy_bytes(
            pts[0],
        ));
    } else {
        lemma_points_bytes_take_succ(pts.drop_first(), i - 1);
        assert(pts.take(i + 1).drop_first() =~= pts.drop_first().take(i));
        assert(pts.take(i).drop_first() =~= pts.drop_first().take(i - 1));
        assert(pts.take(i + 1)[0] == pts[0]);
        assert(pts.take(i)[0] == pts[0]);
        assert(spec_points_bytes(pts.take(i + 1)) =~= spec_points_bytes(pts.take(i))
            + spec_xy_bytes(pts[i]));
    }
}

/// Each gradient point occupies exactly four bytes of the buffer.
pub proof fn lemma_points_bytes_len(pts: Seq<XY>)
    ensures
        spec_points_bytes(pts).len() == 4 * pts.len(),
    decreases pts.len(),
{
    if pts.len() > 0 {
        lemma_points_bytes_len(pts.drop_first());
    }
}

impl HueZigbeeUpdate {
    /// A fresh builder with every field absent.
    pub fn new() -> (r: Self)
        ensures
            r@.on_off is None,
            r@.brightness is None,
            r@.color is None,
            r@.color_temperature is None,
            r@.gradient is None,
    {
        HueZigbeeUpdate {
            on_off: None,
            brightness: None,
            color: None,
            color_temperature: None,
            gradient: None,
        }
    }

    /// Sets or overwrites the power field. Infallible.
    pub fn with_on_off(self, on: bool) -> (r: Self)
        ensures
            r@ == (UpdateView { on_off: Some(on), ..self@ }),
    {
        HueZigbeeUpdate { on_off: Some(on), ..self }
    }

    /// Stores the raw brightness without range validation; validation is
    /// deferred to the encoder. Infallible.
    pub fn with_brightness(self, brightness: u8) -> (r: Self)
        ensures
            r@ == (UpdateView { brightness: Some(brightness), ..self@ }),
    {
        HueZigbeeUpdate { brightness: Some(brightness), ..self }
    }

    /// Sets or overwrites the single color field. Infallible.
    pub fn with_single_color(self, point: XY) -> (r: Self)
        ensures
            r@ == (UpdateView { color: Some(point), ..self@ }),
    {
        HueZigbeeUpdate { color: Some(point), ..self }
    }

    /// Sets or overwrites the color temperature, in mirek. Infallible;
    /// the range is validated at encode time.
    pub fn with_color_temperature(self, mirek: u16) -> (r: Self)
        ensures
            r@ == (UpdateView { color_temperature: Some(mirek), ..self@ }),
    {
        HueZigbeeUpdate { color_temperature: Some(mirek), ..self }
    }

    /// Stores a gradient: rejects an empty color list and one of more
    /// than 9 entries at once; otherwise clamps every color against the
    /// target luminaire's gamut and stores the style with the clamped
    /// colors, leaving scale and offset at their default of zero until
    /// overridden.
    pub fn with_gradient_colors(self, style: GradientStyle, colors: Vec<XY>, gamut: &ColorGamut)
        -> (r: Result<Self, EncodeError>)
        ensures
            r is Err <==> (colors@.len() == 0 || colors@.len() > 9),
            colors@.len() == 0 ==> r == Err::<Self, EncodeError>(EncodeError::EmptyGradient),
            colors@.len() > 9 ==> r == Err::<Self, EncodeError>(
                EncodeError::GradientTooLong { attempted: colors@.len() as usize, max: 9 },
            ),
            r matches Ok(b) ==> b@ == (UpdateView {
                gradient: Some(
                    GradientView {
                        style: style,
                        points: colors@.map_values(|c: XY| spec_clamp(*gamut, c)),
                        params: GradientParams { scale: 0, offset: 0 },
                    },
                ),
                ..self@
            }),
    {
        if colors.len() == 0 {
            return Err(EncodeError::EmptyGradient);
        }
        if colors.len() > 9 {
            return Err(EncodeError::GradientTooLong { attempted: colors.len(), max: 9 });
        }
        let mut clamped: Vec<XY> = Vec::new();
        let mut i: usize = 0;
        while i < colors.len()
            invariant
                0 <= i <= colors@.len(),
                clamped@ =~= colors@.take(i as int).map_values(|c: XY| spec_clamp(*gamut, c)),
            decreases colors@.len() - i,
        {
            clamped.push(gamut.clamp(colors[i]));
            i = i + 1;
        }
        proof {
            assert(colors@.take(colors@.len() as int) =~= colors@);
        }
        Ok(
            HueZigbeeUpdate {
                gradient: Some(
                    GradientDescriptor {
                        style,
                        points: clamped,
                        params: GradientParams { scale: 0, offset: 0 },
                    },
                ),
                ..self
            },
        )
    }

    /// Validates the accumulated fields and serializes them atomically:
    /// either the full wire buffer is produced, or the first violated
    /// constraint is reported and no output is returned. Encoding cannot
    /// fail once validation passes.
    #[verifier::rlimit(100)]
    pub fn to_bytes(&self) -> (r: Result<Vec<u8>, EncodeError>)
        ensures
            r is Ok <==> (spec_brightness_ok(self@) && spec_mirek_ok(self@) && spec_gradient_ok(
                self@,
            )),
            !spec_brightness_ok(self@) ==> r == Err::<Vec<u8>, EncodeError>(
                EncodeError::BrightnessOutOfRange,
            ),
            spec_brightness_ok(self@) && !spec_mirek_ok(self@) ==> r == Err::<Vec<u8>, EncodeError>(
                EncodeError::MirekOutOfRange,
            ),
            spec_brightness_ok(self@) && spec_mirek_ok(self@) && !spec_gradient_ok(self@)
                ==> (self@.gradient matches Some(g) && r == Err::<Vec<u8>, EncodeError>(
                EncodeError::GradientTooLong { attempted: g.points.len() as usize, max: 9 },
            )),
            r matches Ok(v) ==> v@ == spec_encode(self@),
    {
        match self.brightness {
            Some(b) => if b > 254 {
                return Err(EncodeError::BrightnessOutOfRange);
            },
            None => {},
        }
        match self.color_temperature {
            Some(m) => if m < 153 || m > 500 {
                return Err(EncodeError::MirekOutOfRange);
            },
            None => {},
        }
        match &self.gradient {
            Some(g) => if g.points.len() < 1 || g.points.len() > 9 {
                return Err(
                    EncodeError::GradientTooLong { attempted: g.points.len(), max: 9 },
                );
            },
            None => {},
        }
        let mut flags: u8 = 0;
        if self.on_off.is_some() {
            flags = flags + 1;
        }
        if self.brightness.is_some() {
            flags = flags + 2;
        }
        if self.color.is_some() {
            flags = flags + 4;
        }
        if self.color_temperature.is_some() {
            flags = flags + 8;
        }
        if self.gradient.is_some() {
            flags = flags + 16;
        }
        assert(flags == spec_flags(self@));
        let mut out: Vec<u8> = Vec::new();
        out.push(flags);
        let ghost mut acc: Seq<u8> = Seq::empty().push(spec_flags(self@));
        if let Some(on) = self.on_off {
            out.push(if on { 1 } else { 0 });
            proof {
                acc = acc.push(if on { 1u8 } else { 0u8 });
            }
        }
        assert(out@ == acc);
        if let Some(b) = self.brightness {
            out.push(b);
            proof {
                acc = acc.push(b);
            }
        }
        assert(out@ == acc);
        if let Some(p) = self.color {
            push_xy(&mut out, p);
            proof {
                acc = acc + spec_xy_bytes(p);
            }
        }
        assert(out@ == acc);
        if let Some(m) = self.color_temperature {
            push_u16_le(&mut out, m);
            proof {
                acc = acc + spec_u16_le(m);
            }
        }
        assert(out@ == acc);
        if let Some(g) = &self.gradient {
            push_gradient(&mut out, g);
            proof {
                acc = acc + spec_gradient_bytes(g@);
            }
        }
        assert(out@ == acc);
        assert(out@ =~= spec_encode(self@));
        Ok(out)
    }

    /// Overwrites scale and offset on an existing gradient descriptor.
    /// Calling this before any gradient colors are set is a silent no-op,
    /// since the parameters are meaningless without colors.
    pub fn with_gradient_params(self, params: GradientParams) -> (r: Self)
        ensures
            self@.gradient is None ==> r@ == self@,
            self@.gradient matches Some(g) ==> r@ == (UpdateView {
                gradient: Some(GradientView { params: params, ..g }),
                ..self@
            }),
    {
        match self.gradient {
            None => self,
            Some(g) => HueZigbeeUpdate {
                gradient: Some(GradientDescriptor { params, ..g }),
                ..self
            },
        }
    }
}

/// Determinism: the encoder is a pure function of the builder's value,
/// so two builders that hold the same fields encode to byte-identical
/// buffers.
pub proof fn lemma_encode_deterministic(a: UpdateView, b: UpdateView)
    requires
        a == b,
    ensures
        spec_encode(a) == spec_encode(b),
{
}

/// How many of the builder's optional fields are present.
pub open spec fn spec_field_count(u: UpdateView) -> int {
    (if u.on_off is Some { 1int } else { 0 }) + (if u.brightness is Some { 1int } else { 0 })
        + (if u.color is Some { 1int } else { 0 }) + (if u.color_temperature is Some {
        1int
    } else {
        0
    }) + (if u.gradient is Some { 1int } else { 0 })
}

/// The number of set bits in the binary writing of `n`.
pub open spec fn spec_popcount(n: nat) -> nat
    decreases n,
{
    if n == 0 {
        0
    } else {
        n % 2 + spec_popcount(n / 2)
    }
}

/// How many points the builder's gradient holds, zero when it has none.
pub open spec fn spec_gradient_point_count(u: UpdateView) -> int {
    match u.gradient {
        Some(g) => g.points.len() as int,
        None => 0,
    }
}

/// Flags consistency, first half: the number of set bits in the flags
/// byte equals exactly the number of optional fields present in the
/// builder.
pub proof fn lemma_flags_popcount(u: UpdateView)
    ensures
        spec_popcount(spec_flags(u) as nat) == spec_field_count(u),
{
    reveal_with_fuel(spec_popcount, 7);
    assert(spec_flags(u) < 32);
}

/// Flags consistency, second half: the total buffer length is fully
/// determined by the flags byte and, when the gradient bit is set, the
/// gradient's point count.
pub proof fn lemma_flags_determine_length(u: UpdateView)
    ensures
        spec_encode(u)[0] == spec_flags(u),
        ({
            let f = spec_flags(u) as int;
            spec_encode(u).len() == 1 + f % 2 + ((f / 2) % 2) + 4 * ((f / 4) % 2) + 2 * ((f / 8)
                % 2) + (if (f / 16) % 2 == 1 {
                4 * spec_gradient_point_count(u) + 4
            } else {
                0
            })
        }),
{
    let p = if u.on_off is Some { 1int } else { 0 };
    let b = if u.brightness is Some { 1int } else { 0 };
    let c = if u.color is Some { 1int } else { 0 };
    let t = if u.color_temperature is Some { 1int } else { 0 };
    let g = if u.gradient is Some { 1int } else { 0 };
    let f = spec_flags(u) as int;
    assert(f == p + 2 * b + 4 * c + 8 * t + 16 * g);
    assert(f % 2 == p);
    assert((f / 2) % 2 == b);
    assert((f / 4) % 2 == c);
    assert((f / 8) % 2 == t);
    assert((f / 16) % 2 == g);
    match u.gradient {
        Some(gr) => lemma_points_bytes_len(gr.points),
        None => {},
    }
}

} // verus!
