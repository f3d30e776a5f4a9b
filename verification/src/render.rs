//! Rendering: one glyph per cell, one line per grid row.
//!
//! Vegetation takes priority over structure, which takes priority over the
//! plain depth-band glyph; land renders as a fixed glyph. The glyph tables
//! are fixed. Colour is presentation and is left to the caller: the
//! rendered text here is the plain glyph grid.

use vstd::prelude::*;

use vstd::arithmetic::div_mod::lemma_fundamental_div_mod_converse;
use vstd::string::StringExecFns;

use crate::depth::spec_band_index;
use crate::generate::TopographicMap;
use crate::region::{Structure, TopographicRegion, TopographicWaterRegion, Vegetation};

verus! {

/// The glyph of depth band `i`, shallowest first.
pub open spec fn spec_band_glyph(i: int) -> char {
    if i == 0 {
        '░'
    } else if i == 1 {
        '▒'
    } else if i == 2 {
        '▓'
    } else {
        '█'
    }
}

/// The glyph of a vegetation kind.
pub open spec fn spec_vegetation_glyph(v: Vegetation) -> char {
    match v {
        Vegetation::Grass => '„',
        Vegetation::Reeds => '¥',
        Vegetation::Mats => '¬',
    }
}

/// The glyph of a structure kind.
pub open spec fn spec_structure_glyph(s: Structure) -> char {
    match s {
        Structure::ChunkRock => '¤',
        Structure::Boulder => '®',
        Structure::Timber => '˜',
        Structure::Brush => '×',
    }
}

/// The glyph of a cell: land is fixed; on water, vegetation renders first,
/// then structure, then the cell's depth band.
pub open spec fn spec_region_glyph(r: TopographicRegion) -> char {
    match r {
        TopographicRegion::Land(_) => '#',
        TopographicRegion::Water(w) => match w.vegetation {
            Some(v) => spec_vegetation_glyph(v),
            None => match w.structure {
                Some(s) => spec_structure_glyph(s),
                None => spec_band_glyph(spec_band_index(w.depth.0 as int)),
            },
        },
    }
}

/// No cell glyph is a line terminator.
pub proof fn lemma_glyph_is_not_newline(r: TopographicRegion)
    ensures
        spec_region_glyph(r) != '\n',
{
}

impl Vegetation {
    /// This kind's glyph.
    pub fn glyph(&self) -> (g: &'static str)
        ensures
            g@ == seq![spec_vegetation_glyph(*self)],
    {
        match self {
            Vegetation::Grass => {
                proof {
                    reveal_strlit("„");
                    assert("„"@ =~= seq![spec_vegetation_glyph(Vegetation::Grass)]);
                }
                "„"
            },
            Vegetation::Reeds => {
                proof {
                    reveal_strlit("¥");
                    assert("¥"@ =~= seq![spec_vegetation_glyph(Vegetation::Reeds)]);
                }
                "¥"
            },
            Vegetation::Mats => {
                proof {
                    reveal_strlit("¬");
                    assert("¬"@ =~= seq![spec_vegetation_glyph(Vegetation::Mats)]);
                }
                "¬"
            },
        }
    }
}

impl Structure {
    /// This kind's glyph.
    pub fn glyph(&self) -> (g: &'static str)
        ensures
            g@ == seq![spec_structure_glyph(*self)],
    {
        match self {
            Structure::ChunkRock => {
                proof {
                    reveal_strlit("¤");
                    assert("¤"@ =~= seq![spec_structure_glyph(Structure::ChunkRock)]);
                }
                "¤"
            },
            Structure::Boulder => {
                proof {
                    reveal_strlit("®");
                    assert("®"@ =~= seq![spec_structure_glyph(Structure::Boulder)]);
                }
                "®"
            },
            Structure::Timber => {
                proof {
                    reveal_strlit("˜");
                    assert("˜"@ =~= seq![spec_structure_glyph(Structure::Timber)]);
                }
                "˜"
            },
            Structure::Brush => {
                proof {
                    reveal_strlit("×");
                    assert("×"@ =~= seq![spec_structure_glyph(Structure::Brush)]);
                }
                "×"
            },
        }
    }
}

impl TopographicWaterRegion {
    /// This cell's glyph: vegetation first, then structure, then the depth
    /// band.
    pub fn glyph(&self) -> (g: &'static str)
        ensures
            g@ == seq![spec_region_glyph(TopographicRegion::Water(*self))],
    {
        if let Some(veg) = &self.vegetation {
            veg.glyph()
        } else if let Some(struc) = &self.structure {
            struc.glyph()
        } else {
            if self.depth.0 <= 5_000_000 {
                proof {
                    reveal_strlit("░");
                    assert("░"@ =~= seq![spec_band_glyph(0)]);
                }
                "░"
            } else if self.depth.0 <= 7_000_000 {
                proof {
                    reveal_strlit("▒");
                    assert("▒"@ =~= seq![spec_band_glyph(1)]);
                }
                "▒"
            } else if self.depth.0 <= 10_000_000 {
                proof {
                    reveal_strlit("▓");
                    assert("▓"@ =~= seq![spec_band_glyph(2)]);
                }
                "▓"
            } else {
                proof {
                    reveal_strlit("█");
                    assert("█"@ =~= seq![spec_band_glyph(3)]);
                }
                "█"
            }
        }
    }
}

impl TopographicRegion {
    /// This cell's glyph.
    pub fn glyph(&self) -> (g: &'static str)
        ensures
            g@ == seq![spec_region_glyph(*self)],
    {
        match self {
            TopographicRegion::Land(_) => {
                proof {
                    reveal_strlit("#");
                    assert("#"@ =~= seq![spec_region_glyph(*self)]);
                }
                "#"
            },
            TopographicRegion::Water(w) => w.glyph(),
        }
    }
}

/// Row `y` of the rendered grid: one glyph per cell, left to right.
pub open spec fn spec_row(data: Seq<TopographicRegion>, width: nat, y: nat) -> Seq<char> {
    Seq::new(width, |x: int| spec_region_glyph(data[y * width + x]))
}

/// The rendered grid: the rows in order, each closed by one line
/// terminator, with nothing after the final row's terminator.
pub open spec fn spec_render(data: Seq<TopographicRegion>, width: nat, height: nat) -> Seq<char>
    decreases height,
{
    if height == 0 {
        Seq::empty()
    } else {
        spec_render(data, width, (height - 1) as nat) + spec_row(data, width, (height - 1) as nat)
            + seq!['\n']
    }
}

impl TopographicMap {
    /// Renders the map: one line per grid row, one glyph per cell.
    pub fn render(&self) -> (out: String)
        requires
            self.data@.len() == self.width * self.height,
        ensures
            out@ == spec_render(self.data@, self.width as nat, self.height as nat),
    {
        let mut out = String::new();
        for y in 0..self.height
            invariant
                self.data@.len() == self.width * self.height,
                out@ == spec_render(self.data@, self.width as nat, y as nat),
        {
            for x in 0..self.width
                invariant
                    self.data@.len() == self.width * self.height,
                    y < self.height,
                    out@ == spec_render(self.data@, self.width as nat, y as nat) + spec_row(
                        self.data@,
                        self.width as nat,
                        y as nat,
                    ).take(x as int),
            {
                let cell = self.region_at(x, y);
                out.append(cell.glyph());
                proof {
                    assert(out@ =~= spec_render(self.data@, self.width as nat, y as nat)
                        + spec_row(self.data@, self.width as nat, y as nat).take(x + 1));
                }
            }
            out.append("\n");
            proof {
                reveal_strlit("\n");
                assert(spec_row(self.data@, self.width as nat, y as nat).take(self.width as int)
                    =~= spec_row(self.data@, self.width as nat, y as nat));
                assert(out@ =~= spec_render(self.data@, self.width as nat, (y + 1) as nat));
            }
        }
        out
    }
}

/// Determinism carries through rendering: two well-formed maps built from
/// the same seed, dimensions and scale render byte-identically.
pub proof fn lemma_rendering_deterministic(a: TopographicMap, b: TopographicMap)
    requires
        a.wf(),
        b.wf(),
        a.seed == b.seed,
        a.width == b.width,
        a.height == b.height,
        a.scale_hundredths == b.scale_hundredths,
    ensures
        spec_render(a.data@, a.width as nat, a.height as nat) == spec_render(
            b.data@,
            b.width as nat,
            b.height as nat,
        ),
{
    crate::generate::lemma_generation_deterministic(a, b);
}

/// The rendered text has exactly `height` rows of exactly `width` cells:
/// its length is `height * (width + 1)`, and a position holds the line
/// terminator exactly when it closes a row of `width` glyphs.
pub proof fn lemma_render_shape(data: Seq<TopographicRegion>, width: nat, height: nat)
    ensures
        spec_render(data, width, height).len() == height * (width + 1),
        forall|k: int|
            0 <= k < height * (width + 1) ==> ((#[trigger] spec_render(data, width, height)[k])
                == '\n' <==> k % (width + 1) as int == width as int),
    decreases height,
{
    let r = spec_render(data, width, height);
    let w1 = (width + 1) as int;
    if height == 0 {
        assert(height * (width + 1) == 0) by (nonlinear_arith)
            requires
                height == 0,
        ;
    } else {
        let h1 = (height - 1) as nat;
        lemma_render_shape(data, width, h1);
        let prev = spec_render(data, width, h1);
        let row = spec_row(data, width, h1);
        assert(height * (width + 1) == h1 * (width + 1) + width + 1) by (nonlinear_arith)
            requires
                h1 == height - 1,
        ;
        assert forall|k: int| 0 <= k < height * (width + 1) implies ((#[trigger] r[k]) == '\n'
            <==> k % w1 == width as int) by {
            if k < h1 * (width + 1) {
                assert(r[k] == prev[k]);
            } else {
                let x = k - h1 * (width + 1);
                lemma_fundamental_div_mod_converse(k, w1, h1 as int, x);
                if x < width {
                    assert(r[k] == row[x]);
                    lemma_glyph_is_not_newline(data[h1 * width + x]);
                } else {
                    assert(r[k] == '\n');
                }
            }
        }
    }
}

} // verus!
