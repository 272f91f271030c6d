//! Palette and configuration provider for the Mandelbulb renderer.
//!
//! Color channels are stored as integers in hundredths of full intensity:
//! `CHANNEL_UNIT` (100) stands for a fully saturated channel, 50 for a half
//! intensity one. Every value a palette or the default configuration holds is
//! an exact multiple of one hundredth, so nothing is lost by this scale; a
//! host-facing layer divides by `CHANNEL_UNIT` to recover the unit-interval
//! values a GPU uniform buffer expects.

use vstd::prelude::*;

verus! {

/// A fully saturated channel, in hundredths of full intensity.
pub const CHANNEL_UNIT: u32 = 100;

/// One color of a Mandelbulb palette; channels range over `0..=CHANNEL_UNIT`.
#[derive(Clone, Copy, Debug, PartialEq, Eq)]
pub struct Color {
    pub r: u32,
    pub g: u32,
    pub b: u32,
}

impl Color {
    /// Each channel stays within the unit intensity range.
    pub open spec fn wf(self) -> bool {
        self.r <= CHANNEL_UNIT && self.g <= CHANNEL_UNIT && self.b <= CHANNEL_UNIT
    }
}

/// The palette selected by id 0.
pub open spec fn spec_palette0() -> Seq<Color> {
    seq![
        Color { r: 0, g: 100, b: 100 },   // cyan
        Color { r: 100, g: 0, b: 100 },   // magenta
        Color { r: 50, g: 0, b: 100 },    // purple
        Color { r: 0, g: 50, b: 100 },    // blue
        Color { r: 100, g: 100, b: 0 },   // yellow
    ]
}

/// The palette selected by every nonzero id.
pub open spec fn spec_palette1() -> Seq<Color> {
    seq![
        Color { r: 100, g: 0, b: 50 },    // hot pink
        Color { r: 0, g: 100, b: 50 },    // electric green
        Color { r: 50, g: 0, b: 100 },    // deep purple
        Color { r: 0, g: 50, b: 100 },    // tech blue
        Color { r: 100, g: 50, b: 0 },    // neon orange
    ]
}

/// Palette selection: id 0 picks its own table, every other id falls back to
/// the table of id 1.
pub open spec fn spec_palette(id: u32) -> Seq<Color> {
    if id == 0 {
        spec_palette0()
    } else {
        spec_palette1()
    }
}

/// An ordered list of palette colors.
pub struct Palette {
    pub colors: Vec<Color>,
}

impl Palette {
    /// Exactly five colors, each within the unit intensity range.
    pub open spec fn wf(self) -> bool {
        self.colors@.len() == 5 && forall|i: int| 0 <= i < 5 ==> self.colors@[i].wf()
    }
}

/// Returns the five-color palette for `id`: the table of palette 0 when
/// `id == 0`, the table of palette 1 for every other id.
pub fn get_palette(id: u32) -> (p: Palette)
    ensures
        p.colors@ == spec_palette(id),
        p.wf(),
{
    let mut colors: Vec<Color> = Vec::new();
    if id == 0 {
        colors.push(Color { r: 0, g: 100, b: 100 });
        colors.push(Color { r: 100, g: 0, b: 100 });
        colors.push(Color { r: 50, g: 0, b: 100 });
        colors.push(Color { r: 0, g: 50, b: 100 });
        colors.push(Color { r: 100, g: 100, b: 0 });
        proof {
            assert(colors@ =~= spec_palette0());
        }
    } else {
        colors.push(Color { r: 100, g: 0, b: 50 });
        colors.push(Color { r: 0, g: 100, b: 50 });
        colors.push(Color { r: 50, g: 0, b: 100 });
        colors.push(Color { r: 0, g: 50, b: 100 });
        colors.push(Color { r: 100, g: 50, b: 0 });
        proof {
            assert(colors@ =~= spec_palette1());
        }
    }
    Palette { colors }
}

/// Rendering parameters for the Mandelbulb renderer. `power` and `bail_out`
/// are stored in hundredths, on the same scale as the color channels: a
/// `power` of 800 stands for the exponent 8, a `bail_out` of 200 for the
/// escape radius 2. `light_pos` holds the light's coordinates in hundredths
/// as well.
#[derive(Clone, Copy, Debug, PartialEq)]
pub struct MandelbulbConfig {
    pub power: u32,
    pub max_iters: u32,
    pub bail_out: u32,
    pub palette_id: u32,
    pub ambient_color: Color,
    pub light_pos: [u32; 3],
}

/// The default Mandelbulb configuration: exponent 8, 64 iterations, escape
/// radius 2, palette 0, a faint blue ambient color, and a light at (5, 5, 5).
pub open spec fn spec_default_config(c: MandelbulbConfig) -> bool {
    &&& c.power == 800
    &&& c.max_iters == 64
    &&& c.bail_out == 200
    &&& c.palette_id == 0
    &&& c.ambient_color == (Color { r: 5, g: 5, b: 10 })
    &&& c.light_pos[0] == 500
    &&& c.light_pos[1] == 500
    &&& c.light_pos[2] == 500
}

/// Returns the fixed default configuration described by
/// `spec_default_config`.
pub fn get_default_config() -> (c: MandelbulbConfig)
    ensures
        spec_default_config(c),
{
    MandelbulbConfig {
        power: 800,
        max_iters: 64,
        bail_out: 200,
        palette_id: 0,
        ambient_color: Color { r: 5, g: 5, b: 10 },
        light_pos: [500, 500, 500],
    }
}

/// The default configuration is one fixed record: any two values that satisfy
/// its description agree on every field, so repeated requests for it yield
/// identical values.
pub proof fn lemma_default_config_deterministic(a: MandelbulbConfig, b: MandelbulbConfig)
    requires
        spec_default_config(a),
        spec_default_config(b),
    ensures
        a == b,
{
    assert(a.light_pos =~= b.light_pos);
    assert(a =~= b);
}

/// The flat form of the palette for `id`: each color expanded to its four
/// GPU uniform components red, green, blue and a constant alpha of
/// `CHANNEL_UNIT`, in palette order.
pub open spec fn spec_flat_palette(id: u32) -> Seq<u32> {
    Seq::new(
        20,
        |j: int|
            {
                let c = spec_palette(id)[j / 4];
                if j % 4 == 0 {
                    c.r
                } else if j % 4 == 1 {
                    c.g
                } else if j % 4 == 2 {
                    c.b
                } else {
                    CHANNEL_UNIT
                }
            },
    )
}

/// Returns the palette for `id` flattened to twenty components: five colors,
/// each padded with an alpha of `CHANNEL_UNIT` to a four-component vector.
pub fn get_flat_palette(id: u32) -> (flat: Vec<u32>)
    ensures
        flat@ == spec_flat_palette(id),
        flat@.len() == 20,
        forall|j: int| 0 <= j < flat@.len() && j % 4 == 3 ==> flat@[j] == CHANNEL_UNIT,
{
    let palette = get_palette(id);
    let mut flat: Vec<u32> = Vec::new();
    let mut i: usize = 0;
    while i < palette.colors.len()
        invariant
            palette.colors@ == spec_palette(id),
            i <= 5,
            flat@.len() == i * 4,
            forall|j: int| 0 <= j < i * 4 ==> flat@[j] == spec_flat_palette(id)[j],
        decreases 5 - i,
    {
        let c = palette.colors[i];
        flat.push(c.r);
        flat.push(c.g);
        flat.push(c.b);
        flat.push(CHANNEL_UNIT);
        proof {
            assert forall|j: int| 0 <= j < (i + 1) * 4 implies flat@[j] == spec_flat_palette(
                id,
            )[j] by {
                if j >= i * 4 {
                    assert(j / 4 == i);
                }
            }
        }
        i = i + 1;
    }
    proof {
        assert(flat@ =~= spec_flat_palette(id));
        assert forall|j: int| 0 <= j < flat@.len() && j % 4 == 3 implies flat@[j] == CHANNEL_UNIT by {
            assert(flat@[j] == spec_flat_palette(id)[j]);
        }
    }
    flat
}

/// Every nonzero id selects exactly the palette of id 1; only id 0 selects a
/// different table.
pub proof fn lemma_palette_fallback(id: u32)
    requires
        id != 0,
    ensures
        spec_palette(id) == spec_palette(1),
{
}

/// The table of palette 0 really differs from the fallback table.
pub proof fn lemma_palette_zero_distinct()
    ensures
        spec_palette(0) != spec_palette(1),
{
    assert(spec_palette(0)[0].r == 0);
    assert(spec_palette(1)[0].r == 100);
}

} // verus!
