//! The layers of a shell-textured surface.
//!
//! Fur is faked by drawing the mesh several times, each copy pushed a little
//! further out along the normals. On every layer above the base a fragment is
//! kept only near the centre of its texel cell, and the kept part shrinks as
//! the layers go outwards: each cell holds one strand, as high as the cell's
//! noise value, and a layer keeps what lies within the strand at its depth.
//! This module states those rules over exact fractions; a GPU program
//! evaluates the same formulas in single precision.

use vstd::prelude::*;
use vstd::arithmetic::div_mod::lemma_fundamental_div_mod_converse;
use crate::noise::{hash, hash_of, Noise, NOISE_DENOMINATOR};
use crate::ratio::{lemma_product_bound, Ratio, Rational};
use crate::wide::Wide;

verus! {

/// The number of layers drawn over one another, the base surface included.
pub const SHELLS: u32 = 32;

/// The number of texel cells along one unit of texture coordinate.
pub const DENSITY: u32 = 1000;

/// The factor between a strand's remaining height and its radius.
pub const THICKNESS: u32 = 5;

/// One over the distance between two neighbouring layers: the gap is 0.01.
pub const GAP_DIVISOR: u32 = 100;

/// The numerator of the lightest ambient occlusion, 0.3.
pub const AMBIENT_NUM: u32 = 3;

/// The denominator of the lightest ambient occlusion, 0.3.
pub const AMBIENT_DEN: u32 = 10;

/// The depth of layer `index`, `index / SHELLS`: 0 at the base surface and
/// just under 1 at the outermost layer.
pub open spec fn shell_depth(index: nat) -> Rational {
    Rational { num: index as int, den: SHELLS as int }
}

/// The distance between two neighbouring layers, 0.01.
pub open spec fn gap() -> Rational {
    Rational { num: 1, den: GAP_DIVISOR as int }
}

/// The lightest ambient occlusion, 0.3.
pub open spec fn lightest() -> Rational {
    Rational { num: AMBIENT_NUM as int, den: AMBIENT_DEN as int }
}

/// How far layer `index` is pushed out along the normal: `index` gaps.
pub open spec fn extrusion(index: nat) -> Rational {
    gap().scaled(index as int)
}

/// The radius within which layer `index` keeps a fragment of a cell whose
/// noise value is `noise`: `THICKNESS * (noise - depth)`. It is negative where
/// the layer lies above the strand's height.
pub open spec fn discard_threshold(noise: Rational, index: nat) -> Rational {
    noise.minus(shell_depth(index)).scaled(THICKNESS as int)
}

/// Whether layer `index` drops a fragment that lies `dist` from the centre of
/// a cell with noise value `noise`. The base layer drops nothing.
pub open spec fn discarded(index: nat, noise: Rational, dist: Rational) -> bool {
    index > 0 && discard_threshold(noise, index).lt(dist)
}

/// Whether layer `index` drops a fragment at `(lx, ly)` within a cell with
/// noise value `noise`: the base layer drops nothing, another layer what lies
/// further from the centre than the threshold, which is everything where the
/// threshold is negative. The distance is the length of `(lx, ly)`; it is
/// compared by its square.
pub open spec fn discarded_at(index: nat, noise: Rational, lx: Rational, ly: Rational) -> bool {
    let threshold = discard_threshold(noise, index);
    index > 0 && (threshold.lt(Rational::whole(0)) || threshold.squared().lt(
        lx.squared().plus(ly.squared()),
    ))
}

/// The factor by which layer `index` darkens its colour:
/// `min(depth + 0.3, 1)`.
pub open spec fn ambient_occlusion(index: nat) -> Rational {
    shell_depth(index).plus(lightest()).at_most(Rational::whole(1))
}

/// `x / d` rounded towards zero.
pub open spec fn truncated(x: int, d: int) -> int {
    if x >= 0 {
        x / d
    } else {
        -((-x) / d)
    }
}

/// The cell that texture coordinate `coord` falls into:
/// `DENSITY * coord` rounded towards zero.
pub open spec fn cell_of(coord: Rational) -> int {
    truncated(DENSITY * coord.num, coord.den)
}

/// Where `coord` lies within its cell, from -1 at one edge to 1 at the other:
/// twice the fractional part of `DENSITY * coord`, less one. The fractional
/// part is taken downwards, so it is never negative.
pub open spec fn local_of(coord: Rational) -> Rational {
    coord.scaled(DENSITY as int).fract().scaled(2).minus(Rational::whole(1))
}

/// A texture coordinate split into its cell and the place within the cell.
#[derive(Clone, Copy, Debug)]
pub struct Tile {
    /// The index of the cell.
    pub cell: i128,
    /// The place within the cell, in [-1, 1).
    pub local: Ratio,
}

/// Splits a texture coordinate into its cell and the place within the cell.
pub fn tile(coord: &Ratio) -> (tile: Tile)
    ensures
        tile.cell == cell_of(coord@),
        tile.local@ == local_of(coord@),
        Rational::whole(-1).le(tile.local@),
        tile.local@.lt(Rational::whole(1)),
{
    let den: u32 = coord.denominator();
    let num: i64 = coord.numerator();
    let d: i128 = den as i128;
    let density: i128 = DENSITY as i128;
    assert(density == 1000);
    let scaled: i128 = density * (num as i128);
    let ghost x: int = DENSITY * coord@.num;
    assert(x == scaled);
    if num >= 0 {
        let magnitude: u128 = scaled as u128;
        let quotient: u128 = magnitude / (den as u128);
        let rest: u128 = magnitude % (den as u128);
        let local_num: i64 = (2 * (rest as i128) - d) as i64;
        let local = Ratio::new(local_num, den).unwrap();
        Tile { cell: quotient as i128, local }
    } else {
        let magnitude: u128 = (-scaled) as u128;
        let quotient: u128 = magnitude / (den as u128);
        let rest: u128 = magnitude % (den as u128);
        let up: i128 = if rest == 0 {
            0
        } else {
            d - (rest as i128)
        };
        proof {
            let floor: int = if rest == 0 {
                -(quotient as int)
            } else {
                -(quotient as int) - 1
            };
            assert(magnitude == quotient * den + rest) by {
                vstd::arithmetic::div_mod::lemma_fundamental_div_mod(
                    magnitude as int,
                    den as int,
                );
            }
            assert(x == floor * d + up) by (nonlinear_arith)
                requires
                    x == -(magnitude as int),
                    magnitude == quotient * den + rest,
                    d == den,
                    floor == (if rest == 0 {
                        -(quotient as int)
                    } else {
                        -(quotient as int) - 1
                    }),
                    up == (if rest == 0 {
                        0
                    } else {
                        d - rest
                    }),
            ;
            lemma_fundamental_div_mod_converse(x, d as int, floor, up as int);
        }
        let local_num: i64 = (2 * up - d) as i64;
        let local = Ratio::new(local_num, den).unwrap();
        Tile { cell: -(quotient as i128), local }
    }
}

/// The absolute value of `x`.
fn magnitude(x: i64) -> (m: u128)
    ensures
        m == x || m == -x,
        m >= 0,
{
    if x >= 0 {
        x as u128
    } else {
        (-(x as i128)) as u128
    }
}

/// One of the `SHELLS` layers, counted outwards from the base surface.
#[derive(Clone, Copy, Debug)]
pub struct Layer {
    index: u32,
}

impl Layer {
    #[verifier::type_invariant]
    spec fn in_range(self) -> bool {
        self.index < SHELLS
    }

    /// The layer's index, 0 for the base surface.
    pub closed spec fn position(self) -> nat {
        self.index as nat
    }

    /// The layer with index `index`; none from `SHELLS` on.
    pub fn new(index: u32) -> (layer: Option<Layer>)
        ensures
            index < SHELLS <==> layer is Some,
            layer matches Some(l) ==> l.position() == index,
    {
        if index < SHELLS {
            Some(Layer { index })
        } else {
            None
        }
    }

    /// The base surface.
    pub fn base() -> (layer: Layer)
        ensures
            layer.position() == 0,
    {
        Layer { index: 0 }
    }

    /// The layer's index, 0 for the base surface.
    pub fn index(&self) -> (index: u32)
        ensures
            index == self.position(),
            index < SHELLS,
    {
        proof {
            use_type_invariant(self);
        }
        self.index
    }

    /// Whether this is the base surface.
    pub fn is_base(&self) -> (base: bool)
        ensures
            base == (self.position() == 0),
    {
        self.index == 0
    }

    /// The depth of the layer, `index / SHELLS`.
    pub fn depth(&self) -> (depth: Ratio)
        ensures
            depth@ == shell_depth(self.position()),
    {
        Ratio::new(self.index as i64, SHELLS).unwrap()
    }

    /// How far the layer is pushed out along the normal.
    pub fn extrusion(&self) -> (offset: Ratio)
        ensures
            offset@ == extrusion(self.position()),
    {
        Ratio::new(self.index as i64, GAP_DIVISOR).unwrap()
    }

    /// The factor by which the layer darkens its colour.
    pub fn ambient_occlusion(&self) -> (ao: Ratio)
        ensures
            ao@ == ambient_occlusion(self.position()),
    {
        let index: u32 = self.index();
        let lifted: u32 = index * AMBIENT_DEN + AMBIENT_NUM * SHELLS;
        if lifted <= SHELLS * AMBIENT_DEN {
            Ratio::new(lifted as i64, SHELLS * AMBIENT_DEN).unwrap()
        } else {
            Ratio::whole(1)
        }
    }

    /// Whether the layer drops a fragment that lies `dist` from the centre of
    /// a cell with noise value `noise`.
    pub fn discards(&self, noise: &Noise, dist: &Ratio) -> (killed: bool)
        ensures
            killed == discarded(self.position(), noise@, dist@),
    {
        let index: u32 = self.index();
        if index == 0 {
            return false;
        }
        let n: i128 = noise.numerator() as i128;
        let dn: i128 = NOISE_DENOMINATOR as i128;
        let m: i128 = dist.numerator() as i128;
        let dm: i128 = dist.denominator() as i128;
        let shells: i128 = SHELLS as i128;
        let thickness: i128 = THICKNESS as i128;
        proof {
            assert(shells == 32 && thickness == 5);
            lemma_product_bound(index as int, 32, dn as int, 0x2_0000_0000_0000);
        }
        let lowered: i128 = n * shells - (index as i128) * dn;
        let threshold_num: i128 = thickness * lowered;
        let threshold_den: i128 = dn * shells;
        proof {
            lemma_product_bound(
                threshold_num as int,
                0x1000_0000_0000_0000,
                dm as int,
                0x1_0000_0000,
            );
            lemma_product_bound(
                m as int,
                0x8000_0000_0000_0000,
                threshold_den as int,
                0x40_0000_0000_0000,
            );
        }
        threshold_num * dm < m * threshold_den
    }

    /// Whether the layer drops a fragment at `(lx, ly)` within a cell with
    /// noise value `noise`.
    fn discards_at(&self, noise: &Noise, lx: &Ratio, ly: &Ratio) -> (killed: bool)
        requires
            Rational::whole(-1).le(lx@),
            lx@.lt(Rational::whole(1)),
            Rational::whole(-1).le(ly@),
            ly@.lt(Rational::whole(1)),
        ensures
            killed == discarded_at(self.position(), noise@, lx@, ly@),
    {
        let index: u32 = self.index();
        if index == 0 {
            return false;
        }
        let n: i128 = noise.numerator() as i128;
        let dn: i128 = NOISE_DENOMINATOR as i128;
        let shells: i128 = SHELLS as i128;
        let thickness: i128 = THICKNESS as i128;
        proof {
            assert(shells == 32 && thickness == 5);
            lemma_product_bound(index as int, 32, dn as int, 0x2_0000_0000_0000);
        }
        let threshold_num: i128 = thickness * (n * shells - (index as i128) * dn);
        if threshold_num < 0 {
            return true;
        }
        let threshold_den: u128 = (dn * shells) as u128;
        let a: u128 = magnitude(lx.numerator());
        let b: u128 = magnitude(ly.numerator());
        let du: u128 = lx.denominator() as u128;
        let dv: u128 = ly.denominator() as u128;
        let tn: u128 = threshold_num as u128;
        proof {
            lemma_product_bound(tn as int, 0x200_0000_0000_0000, tn as int, 0x200_0000_0000_0000);
            lemma_product_bound(
                threshold_den as int,
                0x40_0000_0000_0000,
                threshold_den as int,
                0x40_0000_0000_0000,
            );
            lemma_product_bound(a as int, 0xffff_ffff, a as int, 0xffff_ffff);
            lemma_product_bound(b as int, 0xffff_ffff, b as int, 0xffff_ffff);
            lemma_product_bound(du as int, 0xffff_ffff, du as int, 0xffff_ffff);
            lemma_product_bound(dv as int, 0xffff_ffff, dv as int, 0xffff_ffff);
        }
        let tn2: u128 = tn * tn;
        let td2: u128 = threshold_den * threshold_den;
        let a2: u128 = a * a;
        let b2: u128 = b * b;
        let du2: u128 = du * du;
        let dv2: u128 = dv * dv;
        proof {
            let most: int = 0xffff_ffffint * 0xffff_ffffint;
            lemma_product_bound(a2 as int, most, dv2 as int, most);
            lemma_product_bound(b2 as int, most, du2 as int, most);
            lemma_product_bound(du2 as int, most, dv2 as int, most);
        }
        let near: u128 = a2 * dv2;
        let far: u128 = b2 * du2;
        let common: u128 = du2 * dv2;
        proof {
            let most: int = (0xffff_ffffint * 0xffff_ffffint) * (0xffff_ffffint * 0xffff_ffffint);
            let widest: int = 0x40_0000_0000_0000int * 0x40_0000_0000_0000int;
            lemma_product_bound(near as int, most, td2 as int, widest);
            lemma_product_bound(far as int, most, td2 as int, widest);
            assert(most * widest + most * widest < crate::wide::half() * crate::wide::half())
                by (nonlinear_arith)
                requires
                    most == (0xffff_ffffint * 0xffff_ffffint) * (0xffff_ffffint * 0xffff_ffffint),
                    widest == 0x40_0000_0000_0000int * 0x40_0000_0000_0000int,
                    crate::wide::half() == 0x1_0000_0000_0000_0000int * 0x1_0000_0000_0000_0000int,
            ;
        }
        let reach = Wide::product(tn2, common);
        let dist = Wide::product(near, td2).plus(Wide::product(far, td2));
        proof {
            let la = lx@.num;
            let lb = ly@.num;
            assert(a * a == la * la && b * b == lb * lb) by (nonlinear_arith)
                requires
                    a == la || a == -la,
                    b == lb || b == -lb,
            ;
            assert((la * la * (dv * dv) + lb * lb * (du * du)) * td2 == near * td2 + far * td2)
                by (nonlinear_arith)
                requires
                    near == (la * la) * (dv * dv),
                    far == (lb * lb) * (du * du),
            ;
        }
        reach.less(&dist)
    }

    /// What becomes of the fragment at texture coordinate `(u, v)`: nothing
    /// where the layer drops it, else the factor its colour is multiplied by.
    /// The cell's noise value is the hash of the cell, and the fragment's
    /// distance from the centre the length of its place within the cell.
    pub fn fragment(&self, u: &Ratio, v: &Ratio) -> (factor: Option<Ratio>)
        ensures
            discarded_at(
                self.position(),
                hash_of(cell_of(u@), cell_of(v@)),
                local_of(u@),
                local_of(v@),
            ) <==> factor is None,
            factor matches Some(ao) ==> ao@ == ambient_occlusion(self.position()),
    {
        let across = tile(u);
        let along = tile(v);
        let noise = hash(across.cell, along.cell);
        if self.discards_at(&noise, &across.local, &along.local) {
            None
        } else {
            Some(self.ambient_occlusion())
        }
    }

    /// What becomes of a fragment on this layer: nothing where it is dropped,
    /// else the factor its colour is multiplied by.
    pub fn shade(&self, noise: &Noise, dist: &Ratio) -> (factor: Option<Ratio>)
        ensures
            discarded(self.position(), noise@, dist@) <==> factor is None,
            factor matches Some(ao) ==> ao@ == ambient_occlusion(self.position()),
    {
        if self.discards(noise, dist) {
            None
        } else {
            Some(self.ambient_occlusion())
        }
    }
}

/// Further out the threshold is never larger: it falls by `THICKNESS / SHELLS`
/// from one layer to the next.
pub proof fn lemma_threshold_non_increasing(noise: Rational, inner: nat, outer: nat)
    requires
        noise.wf(),
        inner <= outer,
    ensures
        discard_threshold(noise, outer).le(discard_threshold(noise, inner)),
        discard_threshold(noise, inner).minus(discard_threshold(noise, outer)).same(
            Rational { num: THICKNESS * (outer - inner), den: SHELLS as int },
        ),
{
    let n = noise.num;
    let d = noise.den;
    let i = inner as int;
    let j = outer as int;
    assert((5 * (n * 32 - j * d)) * (d * 32) <= (5 * (n * 32 - i * d)) * (d * 32))
        by (nonlinear_arith)
        requires
            d > 0,
            i <= j,
    ;
    assert(((5 * (n * 32 - i * d)) * (d * 32) - (5 * (n * 32 - j * d)) * (d * 32)) * 32 == (5 * (j
        - i)) * ((d * 32) * (d * 32))) by (nonlinear_arith);
}

/// What an inner layer drops of a cell, every layer further out drops too.
pub proof fn lemma_discard_monotone(noise: Rational, dist: Rational, inner: nat, outer: nat)
    requires
        noise.wf(),
        dist.wf(),
        inner <= outer,
    ensures
        discarded(inner, noise, dist) ==> discarded(outer, noise, dist),
{
    let n = noise.num;
    let d = noise.den;
    let i = inner as int;
    let j = outer as int;
    assert((5 * (n * 32 - j * d)) * dist.den <= (5 * (n * 32 - i * d)) * dist.den)
        by (nonlinear_arith)
        requires
            d > 0,
            dist.den > 0,
            i <= j,
    ;
}

/// What an inner layer drops at a place within a cell, every layer further
/// out drops there too.
pub proof fn lemma_discard_at_monotone(
    noise: Rational,
    lx: Rational,
    ly: Rational,
    inner: nat,
    outer: nat,
)
    requires
        noise.wf(),
        lx.wf(),
        ly.wf(),
        inner <= outer,
    ensures
        discarded_at(inner, noise, lx, ly) ==> discarded_at(outer, noise, lx, ly),
{
    let near = discard_threshold(noise, inner);
    let far = discard_threshold(noise, outer);
    let sum = lx.squared().plus(ly.squared());
    assert(far.den == near.den);
    assert(far.num <= near.num) by (nonlinear_arith)
        requires
            far.num == 5 * (noise.num * 32 - outer * noise.den),
            near.num == 5 * (noise.num * 32 - inner * noise.den),
            inner <= outer,
            noise.den > 0,
    ;
    assert(sum.den > 0) by (nonlinear_arith)
        requires
            sum.den == (lx.den * lx.den) * (ly.den * ly.den),
            lx.den > 0,
            ly.den > 0,
    ;
    if discarded_at(inner, noise, lx, ly) && far.num >= 0 {
        assert((far.num * far.num) * sum.den <= (near.num * near.num) * sum.den)
            by (nonlinear_arith)
            requires
                0 <= far.num <= near.num,
                sum.den > 0,
        ;
    }
}

/// Comparing squares decides as comparing distances does: where `dist` is
/// the length of `(lx, ly)`, the fragment at `(lx, ly)` is dropped exactly if
/// one at the distance `dist` is.
pub proof fn lemma_discarded_by_square(
    index: nat,
    noise: Rational,
    dist: Rational,
    lx: Rational,
    ly: Rational,
)
    requires
        noise.wf(),
        dist.wf(),
        lx.wf(),
        ly.wf(),
        dist.num >= 0,
        dist.squared().same(lx.squared().plus(ly.squared())),
    ensures
        discarded_at(index, noise, lx, ly) == discarded(index, noise, dist),
{
    let t = discard_threshold(noise, index);
    let tn = t.num;
    let td = t.den;
    let m = dist.num;
    let dd = dist.den;
    let sum = lx.squared().plus(ly.squared());
    let sn = sum.num;
    let sd = sum.den;
    assert(td > 0) by (nonlinear_arith)
        requires
            td == noise.den * 32,
            noise.den > 0,
    ;
    assert(sd > 0) by (nonlinear_arith)
        requires
            sd == (lx.den * lx.den) * (ly.den * ly.den),
            lx.den > 0,
            ly.den > 0,
    ;
    assert((m * m) * sd == sn * (dd * dd));
    if tn < 0 {
        assert(tn * dd < 0 && m * td >= 0) by (nonlinear_arith)
            requires
                tn < 0,
                dd > 0,
                m >= 0,
                td > 0,
        ;
    } else {
        let left = tn * dd;
        let right = m * td;
        // both sides of the comparison by squares, times the square of dd
        assert((tn * tn) * sd * (dd * dd) == (left * left) * sd) by (nonlinear_arith)
            requires
                left == tn * dd,
        ;
        assert(sn * (td * td) * (dd * dd) == (right * right) * sd) by (nonlinear_arith)
            requires
                right == m * td,
                (m * m) * sd == sn * (dd * dd),
        ;
        assert(left >= 0 && right >= 0) by (nonlinear_arith)
            requires
                left == tn * dd,
                right == m * td,
                tn >= 0,
                dd > 0,
                m >= 0,
                td > 0,
        ;
        assert((left < right) == ((left * left) * sd < (right * right) * sd)) by (nonlinear_arith)
            requires
                left >= 0,
                right >= 0,
                sd > 0,
        ;
        assert(((tn * tn) * sd < sn * (td * td)) == ((tn * tn) * sd * (dd * dd) < sn * (td * td)
            * (dd * dd))) by (nonlinear_arith)
            requires
                dd > 0,
        ;
    }
}

/// The base surface is drawn whole: nothing of it is dropped, whatever the
/// noise and the distance.
pub proof fn lemma_base_layer_keeps_all(noise: Rational, dist: Rational, lx: Rational, ly: Rational)
    ensures
        !discarded(0, noise, dist),
        !discarded_at(0, noise, lx, ly),
{
}

/// A layer that lies above the strand's height drops every fragment of the
/// cell, the one at its very centre included; a layer exactly at that height
/// keeps the centre alone.
pub proof fn lemma_layer_above_strand(noise: Rational, dist: Rational, index: nat)
    requires
        noise.wf(),
        dist.wf(),
        index > 0,
        dist.num >= 0,
    ensures
        noise.lt(shell_depth(index)) ==> discarded(index, noise, dist),
        noise.same(shell_depth(index)) ==> (discarded(index, noise, dist) <==> dist.num > 0),
{
    let n = noise.num;
    let d = noise.den;
    let i = index as int;
    if noise.lt(shell_depth(index)) {
        assert((5 * (n * 32 - i * d)) * dist.den < 0) by (nonlinear_arith)
            requires
                n * 32 < i * d,
                dist.den > 0,
        ;
        assert(dist.num * (d * 32) >= 0) by (nonlinear_arith)
            requires
                dist.num >= 0,
                d > 0,
        ;
    }
    if noise.same(shell_depth(index)) {
        assert((5 * (n * 32 - i * d)) * dist.den == 0) by (nonlinear_arith)
            requires
                n * 32 == i * d,
        ;
        assert(dist.num > 0 <==> dist.num * (d * 32) > 0) by (nonlinear_arith)
            requires
                dist.num >= 0,
                d > 0,
        ;
    }
}

/// The ambient occlusion of every layer lies between 0.3 and 1. It is 0.3 on
/// the base surface and grows outwards until it reaches 1.
pub proof fn lemma_ambient_occlusion_bounds(index: nat)
    ensures
        ambient_occlusion(index).wf(),
        lightest().le(ambient_occlusion(index)),
        ambient_occlusion(index).le(Rational::whole(1)),
        ambient_occlusion(0).same(lightest()),
        ambient_occlusion(index).le(ambient_occlusion(index + 1)),
{
    let here = shell_depth(index).plus(lightest());
    let next = shell_depth(index + 1).plus(lightest());
    assert(here.num == 10 * index + 96 && here.den == 320);
    assert(next.num == 10 * index + 106 && next.den == 320);
    assert(here.le(next));
}

/// The depth of a layer lies in [0, 1), and its extrusion stays under
/// `SHELLS` gaps.
pub proof fn lemma_depth_in_unit_range(index: nat)
    requires
        index < SHELLS,
    ensures
        Rational::whole(0).le(shell_depth(index)),
        shell_depth(index).lt(Rational::whole(1)),
        Rational::whole(0).le(extrusion(index)),
        extrusion(index).lt(gap().scaled(SHELLS as int)),
{
    assert(extrusion(index).num == index && gap().scaled(SHELLS as int).num == 32);
}

} // verus!
