use crate::grid::{lemma_cell_of_index, lemma_flat_index_bounds, Array2D, Cross};
use rayon::iter::{IndexedParallelIterator, IntoParallelRefMutIterator, ParallelIterator};
use vstd::prelude::*;

verus! {

/// What a cell is made of. Fixed for a session, but for walls that a
/// script repaints.
#[derive(Clone, Copy, Debug, PartialEq, Eq, Structural)]
pub enum Material {
    /// The wave passes through: the stencil update applies.
    Fluid,
    /// A rigid, absorbing wall: pressure and velocity are forced to zero.
    Solid,
    /// A source: pressure follows a time-driven oscillator.
    Emitter,
}

impl Material {
    /// Whether the material, rather than the wave, sets the cell's pressure.
    pub open spec fn spec_is_fixed(self) -> bool {
        self != Material::Fluid
    }

    /// Whether the material, rather than the wave, sets the cell's pressure
    /// (solid walls and emitters).
    pub fn is_fixed(&self) -> (r: bool)
        ensures
            r == self.spec_is_fixed(),
    {
        match self {
            Material::Fluid => false,
            _ => true,
        }
    }
}

/// Relies on rayon's `par_iter_mut().enumerate().for_each`: every element of
/// `out` is visited exactly once, with its index, on the worker threads, and
/// is overwritten with what `f` returns for that index.
#[verifier::external_body]
fn par_fill<T: Send, F: Fn(usize) -> T + Sync>(out: &mut [T], f: &F)
    requires
        forall|i: usize| i < old(out)@.len() ==> #[trigger] f.requires((i,)),
    ensures
        final(out)@.len() == old(out)@.len(),
        forall|i: int| 0 <= i < final(out)@.len() ==> f.ensures((i as usize,), #[trigger] final(out)@[i]),
{
    out.par_iter_mut().enumerate().for_each(|(i, x)| *x = f(i));
}

/// The velocity of cell `i` after a tick, given the previous generation:
/// zero on a solid cell; elsewhere what `rule` gives for the cell's previous
/// velocity and the previous pressures of its four neighbours (`zero_p`
/// beyond the edge).
pub open spec fn velocity_step<P, V, FV: Fn(V, Cross<P>) -> V>(
    back_p: &Array2D<P>,
    back_v: &Array2D<V>,
    mats: &Array2D<Material>,
    zero_p: P,
    zero_v: V,
    rule: FV,
    i: int,
    r: V,
) -> bool {
    let w = mats.cols() as int;
    if mats@[i] == Material::Solid {
        r == zero_v
    } else {
        rule.ensures((back_v@[i], back_p.cross_or(i % w, i / w, zero_p)), r)
    }
}

/// The pressure of cell `i` after a tick, given the previous generation:
/// on a fluid cell what `rule` gives for the cell's previous pressure and
/// the previous velocities of its four neighbours (`zero_v` beyond the
/// edge); `zero_p` on a solid cell; `emitted` on an emitter.
pub open spec fn pressure_step<P, V, FP: Fn(P, Cross<V>) -> P>(
    back_p: &Array2D<P>,
    back_v: &Array2D<V>,
    mats: &Array2D<Material>,
    zero_p: P,
    zero_v: V,
    rule: FP,
    emitted: P,
    i: int,
    r: P,
) -> bool {
    let w = mats.cols() as int;
    match mats@[i] {
        Material::Fluid => rule.ensures((back_p@[i], back_v.cross_or(i % w, i / w, zero_v)), r),
        Material::Solid => r == zero_p,
        Material::Emitter => r == emitted,
    }
}

/// Whether the cell `x` of a scripted moving wall is solid on tick `ticks`:
/// a pattern of 64 solid and 64 open columns that moves one column every
/// six ticks.
pub open spec fn wall_is_solid(x: int, ticks: int) -> bool {
    (x + ticks / 6) % 128 < 64
}

/// The material of column `x` of a scripted moving wall on tick `ticks`.
pub open spec fn wall_material(x: int, ticks: int) -> Material {
    if wall_is_solid(x, ticks) {
        Material::Solid
    } else {
        Material::Fluid
    }
}

/// The four bytes of pixel `i` of `frame` are those of `px`.
pub open spec fn pixel_bytes(frame: Seq<u8>, i: int, px: [u8; 4]) -> bool {
    &&& frame[4 * i] == px[0]
    &&& frame[4 * i + 1] == px[1]
    &&& frame[4 * i + 2] == px[2]
    &&& frame[4 * i + 3] == px[3]
}

/// Pixel `i` of `frame` holds a colour that `shade` gives for pressure `p`
/// on a cell that is fixed or not.
pub open spec fn pixel_drawn<P, FS: Fn(P, bool) -> [u8; 4]>(
    frame: Seq<u8>,
    i: int,
    shade: FS,
    p: P,
    fixed: bool,
) -> bool {
    exists|px: [u8; 4]| #[trigger] shade.ensures((p, fixed), px) && pixel_bytes(frame, i, px)
}

/// Grids of equal shape.
pub open spec fn same_shape<A, B>(a: &Array2D<A>, b: &Array2D<B>) -> bool {
    a.cols() == b.cols() && a.rows() == b.rows()
}


/// The velocity of cell `i` after a tick (see `velocity_step`).
fn next_velocity<P: Copy, V: Copy, FV: Fn(V, Cross<P>) -> V>(
    back_p: &Array2D<P>,
    back_v: &Array2D<V>,
    mats: &Array2D<Material>,
    zero_p: P,
    zero_v: V,
    rule: &FV,
    i: usize,
) -> (r: V)
    requires
        mats.wf(),
        back_p.wf(),
        back_v.wf(),
        same_shape(back_p, mats),
        same_shape(back_v, mats),
        i < mats@.len(),
        forall|v: V, c: Cross<P>| #[trigger] rule.requires((v, c)),
    ensures
        velocity_step(back_p, back_v, mats, zero_p, zero_v, *rule, i as int, r),
{
    let w = mats.width();
    proof {
        lemma_cell_of_index(w as int, mats.rows() as int, i as int);
    }
    let x = i % w;
    let y = i / w;
    if mats.as_slice()[i] == Material::Solid {
        zero_v
    } else {
        let c = back_p.cross(x, y, zero_p);
        rule(back_v.as_slice()[i], c)
    }
}

/// The pressure of cell `i` after a tick (see `pressure_step`).
fn next_pressure<P: Copy, V: Copy, FP: Fn(P, Cross<V>) -> P>(
    back_p: &Array2D<P>,
    back_v: &Array2D<V>,
    mats: &Array2D<Material>,
    zero_p: P,
    zero_v: V,
    rule: &FP,
    emitted: P,
    i: usize,
) -> (r: P)
    requires
        mats.wf(),
        back_p.wf(),
        back_v.wf(),
        same_shape(back_p, mats),
        same_shape(back_v, mats),
        i < mats@.len(),
        forall|p: P, c: Cross<V>| #[trigger] rule.requires((p, c)),
    ensures
        pressure_step(back_p, back_v, mats, zero_p, zero_v, *rule, emitted, i as int, r),
{
    let w = mats.width();
    proof {
        lemma_cell_of_index(w as int, mats.rows() as int, i as int);
    }
    let x = i % w;
    let y = i / w;
    match mats.as_slice()[i] {
        Material::Fluid => {
            let c = back_v.cross(x, y, zero_v);
            rule(back_p.as_slice()[i], c)
        },
        Material::Solid => zero_p,
        Material::Emitter => emitted,
    }
}

/// The simulation state: two generations of a pressure field and of a
/// velocity field, a material field, and a tick counter. `P` is the
/// pressure value and `V` the velocity value of a cell; `zero_p` and
/// `zero_v` are the values read beyond the edge of the grid and forced on
/// solid cells.
pub struct World<P, V> {
    pressures: Array2D<P>,
    pressures_back: Array2D<P>,
    velocities: Array2D<V>,
    velocities_back: Array2D<V>,
    materials: Array2D<Material>,
    zero_p: P,
    zero_v: V,
    ticks: u32,
}

impl<P, V> World<P, V> {
    /// The current pressure field.
    pub closed spec fn pressure(&self) -> Array2D<P> {
        self.pressures
    }

    /// The previous pressure field.
    pub closed spec fn pressure_back(&self) -> Array2D<P> {
        self.pressures_back
    }

    /// The current velocity field.
    pub closed spec fn velocity(&self) -> Array2D<V> {
        self.velocities
    }

    /// The previous velocity field.
    pub closed spec fn velocity_back(&self) -> Array2D<V> {
        self.velocities_back
    }

    /// The material field.
    pub closed spec fn material(&self) -> Array2D<Material> {
        self.materials
    }

    /// The boundary pressure.
    pub closed spec fn zero_pressure(&self) -> P {
        self.zero_p
    }

    /// The boundary velocity.
    pub closed spec fn zero_velocity(&self) -> V {
        self.zero_v
    }

    /// The number of ticks run.
    pub closed spec fn tick_count(&self) -> nat {
        self.ticks as nat
    }

    /// All five grids are well formed and of one shape.
    pub open spec fn wf(&self) -> bool {
        &&& self.material().wf()
        &&& self.pressure().wf()
        &&& self.pressure_back().wf()
        &&& self.velocity().wf()
        &&& self.velocity_back().wf()
        &&& same_shape(&self.pressure(), &self.material())
        &&& same_shape(&self.pressure_back(), &self.material())
        &&& same_shape(&self.velocity(), &self.material())
        &&& same_shape(&self.velocity_back(), &self.material())
    }

    /// The number of cells.
    pub open spec fn cell_count(&self) -> nat {
        self.material()@.len()
    }
}



impl<P: Copy, V: Copy> World<P, V> {
    /// A `width` by `height` world at rest: every pressure `zero_p`, every
    /// velocity `zero_v`, every cell fluid, no tick run. These two values
    /// are also what the stencil reads beyond the edge of the grid.
    pub fn new(width: usize, height: usize, zero_p: P, zero_v: V) -> (r: World<P, V>)
        requires
            width > 0,
            height > 0,
            width * height <= usize::MAX,
        ensures
            r.wf(),
            r.material().cols() == width,
            r.material().rows() == height,
            r.tick_count() == 0,
            r.zero_pressure() == zero_p,
            r.zero_velocity() == zero_v,
            forall|i: int| 0 <= i < r.cell_count() ==> #[trigger] r.material()@[i] == Material::Fluid,
            forall|i: int| 0 <= i < r.cell_count() ==> #[trigger] r.pressure()@[i] == zero_p,
            forall|i: int| 0 <= i < r.cell_count() ==> #[trigger] r.pressure_back()@[i] == zero_p,
            forall|i: int| 0 <= i < r.cell_count() ==> #[trigger] r.velocity()@[i] == zero_v,
            forall|i: int| 0 <= i < r.cell_count() ==> #[trigger] r.velocity_back()@[i] == zero_v,
    {
        World {
            pressures: Array2D::filled(width, height, zero_p),
            pressures_back: Array2D::filled(width, height, zero_p),
            velocities: Array2D::filled(width, height, zero_v),
            velocities_back: Array2D::filled(width, height, zero_v),
            materials: Array2D::filled(width, height, Material::Fluid),
            zero_p,
            zero_v,
            ticks: 0,
        }
    }

    /// Overwrites the top `rows` rows of the current pressure field from a
    /// frame of values, one per column, wrapping around: column `x` takes
    /// `values[x % values.len()]`. An empty frame changes nothing.
    pub fn apply_forcing(&mut self, values: &[P], rows: usize)
        requires
            old(self).wf(),
            rows <= old(self).material().rows(),
        ensures
            final(self).wf(),
            same_shape(&final(self).pressure(), &old(self).pressure()),
            final(self).pressure_back() == old(self).pressure_back(),
            final(self).velocity() == old(self).velocity(),
            final(self).velocity_back() == old(self).velocity_back(),
            final(self).material() == old(self).material(),
            final(self).zero_pressure() == old(self).zero_pressure(),
            final(self).zero_velocity() == old(self).zero_velocity(),
            final(self).tick_count() == old(self).tick_count(),
            forall|x: int, y: int|
                #[trigger] final(self).pressure().cell(x, y) == if values@.len() > 0 && 0 <= x
                    < old(self).material().cols() && 0 <= y < rows {
                    Some(values@[x % values@.len() as int])
                } else {
                    old(self).pressure().cell(x, y)
                },
    {
        let n = values.len();
        if n > 0 {
            let ghost before = self.pressures;
            let w = self.materials.width();
            let grid = &mut self.pressures;
            let mut x: usize = 0;
            while x < w
                invariant
                    x <= w,
                    n == values@.len(),
                    n > 0,
                    w == before.cols(),
                    rows <= before.rows(),
                    grid.wf(),
                    same_shape(&*grid, &before),
                    forall|x2: int, y2: int|
                        #[trigger] grid.cell(x2, y2) == if 0 <= x2 < x && 0 <= y2 < rows {
                            Some(values@[x2 % n as int])
                        } else {
                            before.cell(x2, y2)
                        },
                decreases w - x,
            {
                let v = values[x % n];
                let mut y: usize = 0;
                while y < rows
                    invariant
                        x < w,
                        n == values@.len(),
                        n > 0,
                        w == before.cols(),
                        y <= rows <= before.rows(),
                        v == values@[x as int % n as int],
                        grid.wf(),
                        same_shape(&*grid, &before),
                        forall|x2: int, y2: int|
                            #[trigger] grid.cell(x2, y2) == if (0 <= x2 < x && 0 <= y2 < rows) || (
                            x2 == x && 0 <= y2 < y) {
                                Some(values@[x2 % n as int])
                            } else {
                                before.cell(x2, y2)
                            },
                    decreases rows - y,
                {
                    grid.set(x, y, v);
                    y = y + 1;
                }
                x = x + 1;
            }
        }
    }

    /// Renders the current pressure field into an RGBA frame of four bytes
    /// per cell, row-major as the grid: the bytes of cell `i` are what
    /// `shade` gives for its pressure and whether its material is fixed.
    pub fn draw<FS: Fn(P, bool) -> [u8; 4]>(&self, frame: &mut [u8], shade: &FS)
        requires
            self.wf(),
            old(frame)@.len() == 4 * self.cell_count(),
            forall|p: P, fixed: bool| #[trigger] shade.requires((p, fixed)),
        ensures
            final(frame)@.len() == old(frame)@.len(),
            forall|i: int|
                0 <= i < self.cell_count() ==> pixel_drawn(
                    final(frame)@,
                    i,
                    *shade,
                    #[trigger] self.pressure()@[i],
                    self.material()@[i].spec_is_fixed(),
                ),
    {
        let n = self.materials.as_slice().len();
        let pressures = self.pressures.as_slice();
        let mats = self.materials.as_slice();
        let frame_len = frame.len();
        let mut i: usize = 0;
        while i < n
            invariant
                i <= n,
                n == self.cell_count(),
                pressures@ == self.pressure()@,
                mats@ == self.material()@,
                self.wf(),
                frame@.len() == 4 * n,
                frame_len == frame@.len(),
                forall|p: P, fixed: bool| #[trigger] shade.requires((p, fixed)),
                forall|j: int|
                    0 <= j < i ==> pixel_drawn(
                        frame@,
                        j,
                        *shade,
                        #[trigger] self.pressure()@[j],
                        self.material()@[j].spec_is_fixed(),
                    ),
            decreases n - i,
        {
            let px = shade(pressures[i], mats[i].is_fixed());
            let ghost prev = frame@;
            let k = 4 * i;
            frame[k] = px[0];
            frame[k + 1] = px[1];
            frame[k + 2] = px[2];
            frame[k + 3] = px[3];
            assert forall|j: int|
                0 <= j <= i implies pixel_drawn(
                frame@,
                j,
                *shade,
                #[trigger] self.pressure()@[j],
                self.material()@[j].spec_is_fixed(),
            ) by {
                if j < i {
                    let q = choose|q: [u8; 4]|
                        #[trigger] shade.ensures(
                            (self.pressure()@[j], self.material()@[j].spec_is_fixed()),
                            q,
                        ) && pixel_bytes(prev, j, q);
                    assert(pixel_bytes(frame@, j, q));
                } else {
                    assert(pixel_bytes(frame@, j, px));
                }
            }
            i = i + 1;
        }
    }
}

impl<P, V> World<P, V> {
    /// The number of columns.
    pub fn width(&self) -> (r: usize)
        requires
            self.wf(),
        ensures
            r == self.material().cols(),
    {
        self.materials.width()
    }

    /// The number of rows.
    pub fn height(&self) -> (r: usize)
        requires
            self.wf(),
        ensures
            r == self.material().rows(),
    {
        self.materials.height()
    }

    /// The number of ticks run.
    pub fn ticks(&self) -> (r: u32)
        ensures
            r == self.tick_count(),
    {
        self.ticks
    }

    /// The current pressure field.
    pub fn pressures(&self) -> (r: &Array2D<P>)
        ensures
            *r == self.pressure(),
    {
        &self.pressures
    }

    /// The current velocity field.
    pub fn velocities(&self) -> (r: &Array2D<V>)
        ensures
            *r == self.velocity(),
    {
        &self.velocities
    }

    /// The material field.
    pub fn materials(&self) -> (r: &Array2D<Material>)
        ensures
            *r == self.material(),
    {
        &self.materials
    }


    /// Repaints the rows `first_row .. end_row` of the material field as a
    /// moving wall (see `wall_is_solid`), on every sixth tick; on other
    /// ticks nothing changes.
    pub fn paint_moving_wall(&mut self, first_row: usize, end_row: usize)
        requires
            old(self).wf(),
            first_row <= end_row <= old(self).material().rows(),
        ensures
            final(self).wf(),
            same_shape(&final(self).material(), &old(self).material()),
            final(self).pressure() == old(self).pressure(),
            final(self).pressure_back() == old(self).pressure_back(),
            final(self).velocity() == old(self).velocity(),
            final(self).velocity_back() == old(self).velocity_back(),
            final(self).zero_pressure() == old(self).zero_pressure(),
            final(self).zero_velocity() == old(self).zero_velocity(),
            final(self).tick_count() == old(self).tick_count(),
            forall|x: int, y: int|
                #[trigger] final(self).material().cell(x, y) == if old(self).tick_count() % 6 == 0
                    && 0 <= x < old(self).material().cols() && first_row <= y < end_row {
                    Some(wall_material(x, old(self).tick_count() as int))
                } else {
                    old(self).material().cell(x, y)
                },
    {
        if self.ticks % 6 == 0 {
            let ghost t = self.ticks as int;
            let ghost before = self.materials;
            let offset = (self.ticks / 6) as usize;
            let w = self.materials.width();
            let mats = &mut self.materials;
            let mut x: usize = 0;
            while x < w
                invariant
                    x <= w,
                    w == before.cols(),
                    first_row <= end_row <= before.rows(),
                    offset == t / 6,
                    mats.wf(),
                    same_shape(&*mats, &before),
                    forall|x2: int, y2: int|
                        #[trigger] mats.cell(x2, y2) == if 0 <= x2 < x && first_row <= y2 < end_row {
                            Some(wall_material(x2, t))
                        } else {
                            before.cell(x2, y2)
                        },
                decreases w - x,
            {
                let solid = (x % 128 + offset % 128) % 128 < 64;
                proof {
                    vstd::arithmetic::div_mod::lemma_add_mod_noop(x as int, offset as int, 128);
                }
                let mat = if solid {
                    Material::Solid
                } else {
                    Material::Fluid
                };
                assert(mat == wall_material(x as int, t));
                let mut y: usize = first_row;
                while y < end_row
                    invariant
                        x < w,
                        w == before.cols(),
                        first_row <= y <= end_row <= before.rows(),
                        mat == wall_material(x as int, t),
                        mats.wf(),
                        same_shape(&*mats, &before),
                        forall|x2: int, y2: int|
                            #[trigger] mats.cell(x2, y2) == if (0 <= x2 < x && first_row <= y2 < end_row)
                                || (x2 == x && first_row <= y2 < y) {
                                Some(wall_material(x2, t))
                            } else {
                                before.cell(x2, y2)
                            },
                    decreases end_row - y,
                {
                    mats.set(x, y, mat);
                    y = y + 1;
                }
                x = x + 1;
            }
        }
    }

    /// The current pressure field, for setting up or forcing cells.
    pub fn pressures_mut(&mut self) -> (r: &mut Array2D<P>)
        ensures
            *r == old(self).pressure(),
            final(self).pressure() == *final(r),
            final(self).pressure_back() == old(self).pressure_back(),
            final(self).velocity() == old(self).velocity(),
            final(self).velocity_back() == old(self).velocity_back(),
            final(self).material() == old(self).material(),
            final(self).zero_pressure() == old(self).zero_pressure(),
            final(self).zero_velocity() == old(self).zero_velocity(),
            final(self).tick_count() == old(self).tick_count(),
    {
        &mut self.pressures
    }

    /// The material field, for scripting walls and sources.
    pub fn materials_mut(&mut self) -> (r: &mut Array2D<Material>)
        ensures
            *r == old(self).material(),
            final(self).material() == *final(r),
            final(self).pressure() == old(self).pressure(),
            final(self).pressure_back() == old(self).pressure_back(),
            final(self).velocity() == old(self).velocity(),
            final(self).velocity_back() == old(self).velocity_back(),
            final(self).zero_pressure() == old(self).zero_pressure(),
            final(self).zero_velocity() == old(self).zero_velocity(),
            final(self).tick_count() == old(self).tick_count(),
    {
        &mut self.materials
    }
}

impl<P: Copy + Send + Sync, V: Copy + Send + Sync> World<P, V> {
    /// Advances the simulation by one tick.
    ///
    /// The two generations exchange roles, without copying: the current
    /// fields become the previous ones, and the new current fields are
    /// computed from them cell by cell, in parallel. A cell's velocity is
    /// `velocity_rule` of its previous velocity and its neighbours' previous
    /// pressures; a fluid cell's pressure is `pressure_rule` of its previous
    /// pressure and its neighbours' previous velocities. Solid cells get the
    /// boundary pressure and velocity; emitter cells get the pressure that
    /// `emitter` gives for the new tick count, one value for all of them.
    pub fn update<FV, FP, FE>(&mut self, velocity_rule: &FV, pressure_rule: &FP, emitter: &FE)
        where
            FV: Fn(V, Cross<P>) -> V + Sync,
            FP: Fn(P, Cross<V>) -> P + Sync,
            FE: Fn(u32) -> P,
        requires
            old(self).wf(),
            old(self).tick_count() < u32::MAX,
            forall|v: V, c: Cross<P>| #[trigger] velocity_rule.requires((v, c)),
            forall|p: P, c: Cross<V>| #[trigger] pressure_rule.requires((p, c)),
            forall|t: u32| #[trigger] emitter.requires((t,)),
        ensures
            final(self).wf(),
            final(self).material() == old(self).material(),
            final(self).zero_pressure() == old(self).zero_pressure(),
            final(self).zero_velocity() == old(self).zero_velocity(),
            final(self).tick_count() == old(self).tick_count() + 1,
            final(self).pressure_back() == old(self).pressure(),
            final(self).velocity_back() == old(self).velocity(),
            same_shape(&final(self).pressure(), &old(self).material()),
            same_shape(&final(self).velocity(), &old(self).material()),
            forall|i: int|
                0 <= i < old(self).cell_count() ==> velocity_step(
                    &old(self).pressure(),
                    &old(self).velocity(),
                    &old(self).material(),
                    old(self).zero_pressure(),
                    old(self).zero_velocity(),
                    *velocity_rule,
                    i,
                    #[trigger] final(self).velocity()@[i],
                ),
            forall|i: int|
                0 <= i < old(self).cell_count() && old(self).material()@[i] == Material::Solid
                    ==> #[trigger] final(self).pressure()@[i] == old(self).zero_pressure()
                    && final(self).velocity()@[i] == old(self).zero_velocity(),
            forall|i: int|
                0 <= i < old(self).cell_count() && old(self).material()@[i] == Material::Emitter
                    ==> emitter.ensures(
                    (final(self).tick_count() as u32,),
                    #[trigger] final(self).pressure()@[i],
                ),
            forall|i: int, j: int|
                0 <= i < old(self).cell_count() && 0 <= j < old(self).cell_count()
                    && old(self).material()@[i] == Material::Emitter && old(self).material()@[j]
                    == Material::Emitter ==> #[trigger] final(self).pressure()@[i]
                    == #[trigger] final(self).pressure()@[j],
            exists|e: P|
                {
                    &&& #[trigger] emitter.ensures((final(self).tick_count() as u32,), e)
                    &&& forall|i: int|
                        0 <= i < old(self).cell_count() ==> pressure_step(
                            &old(self).pressure(),
                            &old(self).velocity(),
                            &old(self).material(),
                            old(self).zero_pressure(),
                            old(self).zero_velocity(),
                            *pressure_rule,
                            e,
                            i,
                            #[trigger] final(self).pressure()@[i],
                        )
                },
    {
        core::mem::swap(&mut self.pressures, &mut self.pressures_back);
        core::mem::swap(&mut self.velocities, &mut self.velocities_back);
        self.ticks = self.ticks + 1;
        let emitted = emitter(self.ticks);
        let zero_p = self.zero_p;
        let zero_v = self.zero_v;
        let ghost n = self.materials@.len();

        let back_p = &self.pressures_back;
        let back_v = &self.velocities_back;
        let mats = &self.materials;
        let velocity_of = |i: usize| -> (r: V)
            requires
                i < n,
                n == mats@.len(),
                mats.wf(),
                back_p.wf(),
                back_v.wf(),
                same_shape(back_p, mats),
                same_shape(back_v, mats),
                forall|v: V, c: Cross<P>| #[trigger] velocity_rule.requires((v, c)),
            ensures
                velocity_step(back_p, back_v, mats, zero_p, zero_v, *velocity_rule, i as int, r),
            { next_velocity(back_p, back_v, mats, zero_p, zero_v, velocity_rule, i) };
        let pressure_of = |i: usize| -> (r: P)
            requires
                i < n,
                n == mats@.len(),
                mats.wf(),
                back_p.wf(),
                back_v.wf(),
                same_shape(back_p, mats),
                same_shape(back_v, mats),
                forall|p: P, c: Cross<V>| #[trigger] pressure_rule.requires((p, c)),
            ensures
                pressure_step(back_p, back_v, mats, zero_p, zero_v, *pressure_rule, emitted, i as int, r),
            { next_pressure(back_p, back_v, mats, zero_p, zero_v, pressure_rule, emitted, i) };
        par_fill(self.velocities.as_mut_slice(), &velocity_of);
        par_fill(self.pressures.as_mut_slice(), &pressure_of);
        assert(forall|i: int|
            0 <= i < n ==> pressure_step(
                &old(self).pressure(),
                &old(self).velocity(),
                &old(self).material(),
                zero_p,
                zero_v,
                *pressure_rule,
                emitted,
                i,
                #[trigger] self.pressures@[i],
            ));
        assert(self.tick_count() as u32 == self.ticks);
        assert(emitter.ensures((self.tick_count() as u32,), emitted));
    }
}


/// A stencil whose four arms all hold `v`.
pub open spec fn uniform_cross<T>(v: T) -> Cross<T> {
    Cross { left: v, right: v, up: v, down: v }
}

/// A field that holds `v` in every cell reads `v` everywhere, beyond its
/// edge too when `v` is also the boundary value.
pub proof fn lemma_uniform_cross<T>(g: Array2D<T>, v: T, x: int, y: int)
    requires
        g.wf(),
        g.in_bounds(x, y),
        forall|i: int| 0 <= i < g@.len() ==> #[trigger] g@[i] == v,
    ensures
        g.cross_or(x, y, v) == uniform_cross(v),
{
    let w = g.cols() as int;
    let h = g.rows() as int;
    assert forall|x2: int, y2: int| #[trigger] g.cell_or(x2, y2, v) == v by {
        if g.in_bounds(x2, y2) {
            lemma_flat_index_bounds(w, h, x2, y2);
        }
    }
}

/// An all-fluid world at rest stays at rest. When every cell of the
/// previous generation holds the boundary values, each rule is handed only
/// boundary values: the cell's own previous value and four neighbours at
/// rest. So when the rules map rest to rest, every cell of the new
/// generation that a tick computes is at rest again; tick after tick, the
/// world never leaves rest.
pub proof fn lemma_rest_is_preserved<P, V, FV: Fn(V, Cross<P>) -> V, FP: Fn(P, Cross<V>) -> P>(
    back_p: Array2D<P>,
    back_v: Array2D<V>,
    mats: Array2D<Material>,
    zero_p: P,
    zero_v: V,
    velocity_rule: FV,
    pressure_rule: FP,
    emitted: P,
    new_p: Seq<P>,
    new_v: Seq<V>,
)
    requires
        mats.wf(),
        back_p.wf(),
        back_v.wf(),
        same_shape(&back_p, &mats),
        same_shape(&back_v, &mats),
        forall|i: int| 0 <= i < mats@.len() ==> #[trigger] mats@[i] == Material::Fluid,
        forall|i: int| 0 <= i < mats@.len() ==> #[trigger] back_p@[i] == zero_p,
        forall|i: int| 0 <= i < mats@.len() ==> #[trigger] back_v@[i] == zero_v,
        forall|r: V| #[trigger] velocity_rule.ensures((zero_v, uniform_cross(zero_p)), r) ==> r == zero_v,
        forall|r: P| #[trigger] pressure_rule.ensures((zero_p, uniform_cross(zero_v)), r) ==> r == zero_p,
        new_p.len() == mats@.len(),
        new_v.len() == mats@.len(),
        forall|i: int|
            0 <= i < mats@.len() ==> velocity_step(
                &back_p,
                &back_v,
                &mats,
                zero_p,
                zero_v,
                velocity_rule,
                i,
                #[trigger] new_v[i],
            ),
        forall|i: int|
            0 <= i < mats@.len() ==> pressure_step(
                &back_p,
                &back_v,
                &mats,
                zero_p,
                zero_v,
                pressure_rule,
                emitted,
                i,
                #[trigger] new_p[i],
            ),
    ensures
        forall|i: int| 0 <= i < mats@.len() ==> #[trigger] new_p[i] == zero_p,
        forall|i: int| 0 <= i < mats@.len() ==> #[trigger] new_v[i] == zero_v,
{
    let w = mats.cols() as int;
    let h = mats.rows() as int;
    assert forall|i: int| 0 <= i < mats@.len() implies #[trigger] new_p[i] == zero_p
        && new_v[i] == zero_v by {
        lemma_cell_of_index(w, h, i);
        lemma_uniform_cross(back_p, zero_p, i % w, i / w);
        lemma_uniform_cross(back_v, zero_v, i % w, i / w);
        assert(velocity_step(&back_p, &back_v, &mats, zero_p, zero_v, velocity_rule, i, new_v[i]));
        assert(pressure_step(&back_p, &back_v, &mats, zero_p, zero_v, pressure_rule, emitted, i, new_p[i]));
    }
    assert forall|i: int| 0 <= i < mats@.len() implies #[trigger] new_v[i] == zero_v by {
        assert(new_p[i] == zero_p && new_v[i] == zero_v);
    }
}

} // verus!
