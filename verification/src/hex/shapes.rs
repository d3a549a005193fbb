//! Axes and markers shared by the hex graphs.
use crate::lattice_abstract::shapes::{Axis, AxisDirection};
use vstd::prelude::*;

verus! {

/// Point top hex axis.
#[derive(Debug, Clone, Copy, PartialEq, Eq, PartialOrd, Ord, Hash, Structural)]
pub enum AxisR {
    NE,
    E,
    SE,
}

impl Axis for AxisR {
    const COUNT: usize = 3;
    const DIRECTED: bool = false;
    const DIRECTED_COUNT: usize = 6;
    type Direction = AxisDR;

    open spec fn spec_count() -> nat {
        3
    }

    open spec fn spec_directed() -> bool {
        false
    }

    open spec fn spec_directed_count() -> nat {
        6
    }

    proof fn lemma_consts() {
    }

    open spec fn spec_index(&self) -> nat {
        match self {
            AxisR::NE => 0,
            AxisR::E => 1,
            AxisR::SE => 2,
        }
    }

    open spec fn spec_foward(self) -> AxisDR {
        match self {
            AxisR::NE => AxisDR::NE,
            AxisR::E => AxisDR::E,
            AxisR::SE => AxisDR::SE,
        }
    }

    open spec fn spec_backward(self) -> AxisDR {
        match self {
            AxisR::NE => AxisDR::SW,
            AxisR::E => AxisDR::W,
            AxisR::SE => AxisDR::NW,
        }
    }

    open spec fn spec_from_direction(dir: AxisDR) -> AxisR {
        match dir {
            AxisDR::NE | AxisDR::SW => AxisR::NE,
            AxisDR::E | AxisDR::W => AxisR::E,
            AxisDR::SE | AxisDR::NW => AxisR::SE,
        }
    }

    proof fn lemma_counts() {
    }

    proof fn lemma_index_injective(a: Self, b: Self) {
    }

    proof fn lemma_index_bound(a: Self) {
    }

    proof fn lemma_axis_directions(a: Self) {
    }

    proof fn lemma_direction_of_axis(d: Self::Direction) {
    }

    fn to_index(&self) -> (r: usize) {
        match self {
            AxisR::NE => 0,
            AxisR::E => 1,
            AxisR::SE => 2,
        }
    }

    fn from_index_unchecked(index: usize) -> (r: Self) {
        match index {
            0 => AxisR::NE,
            1 => AxisR::E,
            _ => AxisR::SE,
        }
    }

    fn from_index(index: usize) -> (r: Option<Self>) {
        match index {
            0 => Some(AxisR::NE),
            1 => Some(AxisR::E),
            2 => Some(AxisR::SE),
            _ => None,
        }
    }

    fn foward(self) -> (r: AxisDR) {
        AxisDR::from_index_unchecked(self.to_index())
    }

    fn backward(self) -> (r: AxisDR) {
        AxisDR::from_index_unchecked(self.to_index() + Self::COUNT)
    }

    fn is_forward_direction(dir: &AxisDR) -> (r: bool) {
        dir.dir_to_index() < Self::COUNT
    }

    fn from_direction(dir: AxisDR) -> (r: Self) {
        let i: usize = dir.dir_to_index();
        Self::from_index_unchecked(
            if i >= Self::COUNT {
                i - Self::COUNT
            } else {
                i
            },
        )
    }
}

/// Point top hex direction.
#[derive(Debug, Clone, Copy, PartialEq, Eq, PartialOrd, Ord, Hash, Structural)]
pub enum AxisDR {
    NE,
    E,
    SE,
    SW,
    W,
    NW,
}

impl Axis for AxisDR {
    const COUNT: usize = 6;
    const DIRECTED: bool = true;
    const DIRECTED_COUNT: usize = 6;
    type Direction = AxisDR;

    open spec fn spec_count() -> nat {
        6
    }

    open spec fn spec_directed() -> bool {
        true
    }

    open spec fn spec_directed_count() -> nat {
        6
    }

    proof fn lemma_consts() {
    }

    open spec fn spec_index(&self) -> nat {
        match self {
            AxisDR::NE => 0,
            AxisDR::E => 1,
            AxisDR::SE => 2,
            AxisDR::SW => 3,
            AxisDR::W => 4,
            AxisDR::NW => 5,
        }
    }

    open spec fn spec_foward(self) -> Self {
        self
    }

    /// The reverse direction.
    open spec fn spec_backward(self) -> Self {
        match self {
            AxisDR::NE => AxisDR::SW,
            AxisDR::E => AxisDR::W,
            AxisDR::SE => AxisDR::NW,
            AxisDR::SW => AxisDR::NE,
            AxisDR::W => AxisDR::E,
            AxisDR::NW => AxisDR::SE,
        }
    }

    open spec fn spec_from_direction(dir: Self) -> Self {
        dir
    }

    proof fn lemma_counts() {
    }

    proof fn lemma_index_injective(a: Self, b: Self) {
    }

    proof fn lemma_index_bound(a: Self) {
    }

    proof fn lemma_axis_directions(a: Self) {
    }

    proof fn lemma_direction_of_axis(d: Self::Direction) {
    }

    fn to_index(&self) -> (r: usize) {
        match self {
            AxisDR::NE => 0,
            AxisDR::E => 1,
            AxisDR::SE => 2,
            AxisDR::SW => 3,
            AxisDR::W => 4,
            AxisDR::NW => 5,
        }
    }

    fn from_index_unchecked(index: usize) -> (r: Self) {
        match index {
            0 => AxisDR::NE,
            1 => AxisDR::E,
            2 => AxisDR::SE,
            3 => AxisDR::SW,
            4 => AxisDR::W,
            _ => AxisDR::NW,
        }
    }

    fn from_index(index: usize) -> (r: Option<Self>) {
        match index {
            0 => Some(AxisDR::NE),
            1 => Some(AxisDR::E),
            2 => Some(AxisDR::SE),
            3 => Some(AxisDR::SW),
            4 => Some(AxisDR::W),
            5 => Some(AxisDR::NW),
            _ => None,
        }
    }

    fn foward(self) -> (r: Self) {
        self
    }

    fn backward(self) -> (r: Self) {
        match self {
            AxisDR::NE => AxisDR::SW,
            AxisDR::E => AxisDR::W,
            AxisDR::SE => AxisDR::NW,
            AxisDR::SW => AxisDR::NE,
            AxisDR::W => AxisDR::E,
            AxisDR::NW => AxisDR::SE,
        }
    }

    fn is_forward_direction(dir: &Self) -> (r: bool) {
        true
    }

    fn from_direction(dir: Self) -> (r: Self) {
        dir
    }
}

impl AxisDirection for AxisDR {
    open spec fn spec_dir_count() -> nat {
        6
    }

    open spec fn spec_dir_index(&self) -> nat {
        self.spec_index()
    }

    open spec fn spec_is_forward(&self) -> bool {
        true
    }

    proof fn lemma_dir_index_bound(d: Self) {
    }

    proof fn lemma_dir_index_injective(a: Self, b: Self) {
    }

    fn is_forward(&self) -> (r: bool) {
        true
    }

    fn dir_to_index(&self) -> (r: usize) {
        self.to_index()
    }

    fn dir_from_index_unchecked(index: usize) -> (r: Self) {
        Self::from_index_unchecked(index)
    }

    fn dir_from_index(index: usize) -> (r: Option<Self>) {
        Self::from_index(index)
    }
}

/// Flat top hex axis.
#[derive(Debug, Clone, Copy, PartialEq, Eq, PartialOrd, Ord, Hash, Structural)]
pub enum AxisQ {
    N,
    NE,
    SE,
}

impl Axis for AxisQ {
    const COUNT: usize = 3;
    const DIRECTED: bool = false;
    const DIRECTED_COUNT: usize = 6;
    type Direction = AxisDQ;

    open spec fn spec_count() -> nat {
        3
    }

    open spec fn spec_directed() -> bool {
        false
    }

    open spec fn spec_directed_count() -> nat {
        6
    }

    proof fn lemma_consts() {
    }

    open spec fn spec_index(&self) -> nat {
        match self {
            AxisQ::N => 0,
            AxisQ::NE => 1,
            AxisQ::SE => 2,
        }
    }

    open spec fn spec_foward(self) -> AxisDQ {
        match self {
            AxisQ::N => AxisDQ::N,
            AxisQ::NE => AxisDQ::NE,
            AxisQ::SE => AxisDQ::SE,
        }
    }

    open spec fn spec_backward(self) -> AxisDQ {
        match self {
            AxisQ::N => AxisDQ::S,
            AxisQ::NE => AxisDQ::SW,
            AxisQ::SE => AxisDQ::NW,
        }
    }

    open spec fn spec_from_direction(dir: AxisDQ) -> AxisQ {
        match dir {
            AxisDQ::N | AxisDQ::S => AxisQ::N,
            AxisDQ::NE | AxisDQ::SW => AxisQ::NE,
            AxisDQ::SE | AxisDQ::NW => AxisQ::SE,
        }
    }

    proof fn lemma_counts() {
    }

    proof fn lemma_index_injective(a: Self, b: Self) {
    }

    proof fn lemma_index_bound(a: Self) {
    }

    proof fn lemma_axis_directions(a: Self) {
    }

    proof fn lemma_direction_of_axis(d: Self::Direction) {
    }

    fn to_index(&self) -> (r: usize) {
        match self {
            AxisQ::N => 0,
            AxisQ::NE => 1,
            AxisQ::SE => 2,
        }
    }

    fn from_index_unchecked(index: usize) -> (r: Self) {
        match index {
            0 => AxisQ::N,
            1 => AxisQ::NE,
            _ => AxisQ::SE,
        }
    }

    fn from_index(index: usize) -> (r: Option<Self>) {
        match index {
            0 => Some(AxisQ::N),
            1 => Some(AxisQ::NE),
            2 => Some(AxisQ::SE),
            _ => None,
        }
    }

    fn foward(self) -> (r: AxisDQ) {
        AxisDQ::from_index_unchecked(self.to_index())
    }

    fn backward(self) -> (r: AxisDQ) {
        AxisDQ::from_index_unchecked(self.to_index() + Self::COUNT)
    }

    fn is_forward_direction(dir: &AxisDQ) -> (r: bool) {
        dir.dir_to_index() < Self::COUNT
    }

    fn from_direction(dir: AxisDQ) -> (r: Self) {
        let i: usize = dir.dir_to_index();
        Self::from_index_unchecked(
            if i >= Self::COUNT {
                i - Self::COUNT
            } else {
                i
            },
        )
    }
}

/// Flat top hex direction.
#[derive(Debug, Clone, Copy, PartialEq, Eq, PartialOrd, Ord, Hash, Structural)]
pub enum AxisDQ {
    N,
    NE,
    SE,
    S,
    SW,
    NW,
}

impl Axis for AxisDQ {
    const COUNT: usize = 6;
    const DIRECTED: bool = true;
    const DIRECTED_COUNT: usize = 6;
    type Direction = AxisDQ;

    open spec fn spec_count() -> nat {
        6
    }

    open spec fn spec_directed() -> bool {
        true
    }

    open spec fn spec_directed_count() -> nat {
        6
    }

    proof fn lemma_consts() {
    }

    open spec fn spec_index(&self) -> nat {
        match self {
            AxisDQ::N => 0,
            AxisDQ::NE => 1,
            AxisDQ::SE => 2,
            AxisDQ::S => 3,
            AxisDQ::SW => 4,
            AxisDQ::NW => 5,
        }
    }

    open spec fn spec_foward(self) -> Self {
        self
    }

    /// The reverse direction.
    open spec fn spec_backward(self) -> Self {
        match self {
            AxisDQ::N => AxisDQ::S,
            AxisDQ::NE => AxisDQ::SW,
            AxisDQ::SE => AxisDQ::NW,
            AxisDQ::S => AxisDQ::N,
            AxisDQ::SW => AxisDQ::NE,
            AxisDQ::NW => AxisDQ::SE,
        }
    }

    open spec fn spec_from_direction(dir: Self) -> Self {
        dir
    }

    proof fn lemma_counts() {
    }

    proof fn lemma_index_injective(a: Self, b: Self) {
    }

    proof fn lemma_index_bound(a: Self) {
    }

    proof fn lemma_axis_directions(a: Self) {
    }

    proof fn lemma_direction_of_axis(d: Self::Direction) {
    }

    fn to_index(&self) -> (r: usize) {
        match self {
            AxisDQ::N => 0,
            AxisDQ::NE => 1,
            AxisDQ::SE => 2,
            AxisDQ::S => 3,
            AxisDQ::SW => 4,
            AxisDQ::NW => 5,
        }
    }

    fn from_index_unchecked(index: usize) -> (r: Self) {
        match index {
            0 => AxisDQ::N,
            1 => AxisDQ::NE,
            2 => AxisDQ::SE,
            3 => AxisDQ::S,
            4 => AxisDQ::SW,
            _ => AxisDQ::NW,
        }
    }

    fn from_index(index: usize) -> (r: Option<Self>) {
        match index {
            0 => Some(AxisDQ::N),
            1 => Some(AxisDQ::NE),
            2 => Some(AxisDQ::SE),
            3 => Some(AxisDQ::S),
            4 => Some(AxisDQ::SW),
            5 => Some(AxisDQ::NW),
            _ => None,
        }
    }

    fn foward(self) -> (r: Self) {
        self
    }

    fn backward(self) -> (r: Self) {
        match self {
            AxisDQ::N => AxisDQ::S,
            AxisDQ::NE => AxisDQ::SW,
            AxisDQ::SE => AxisDQ::NW,
            AxisDQ::S => AxisDQ::N,
            AxisDQ::SW => AxisDQ::NE,
            AxisDQ::NW => AxisDQ::SE,
        }
    }

    fn is_forward_direction(dir: &Self) -> (r: bool) {
        true
    }

    fn from_direction(dir: Self) -> (r: Self) {
        dir
    }
}

impl AxisDirection for AxisDQ {
    open spec fn spec_dir_count() -> nat {
        6
    }

    open spec fn spec_dir_index(&self) -> nat {
        self.spec_index()
    }

    open spec fn spec_is_forward(&self) -> bool {
        true
    }

    proof fn lemma_dir_index_bound(d: Self) {
    }

    proof fn lemma_dir_index_injective(a: Self, b: Self) {
    }

    fn is_forward(&self) -> (r: bool) {
        true
    }

    fn dir_to_index(&self) -> (r: usize) {
        self.to_index()
    }

    fn dir_from_index_unchecked(index: usize) -> (r: Self) {
        Self::from_index_unchecked(index)
    }

    fn dir_from_index(index: usize) -> (r: Option<Self>) {
        Self::from_index(index)
    }
}

/// Whether the shifted rows (or columns) of a hex lattice are the odd or the even ones.
/// Index of a direction in `hex2d`'s order: `YZ`, `XZ`, `XY`, `ZY`, `ZX`, `YX`, clockwise from
/// the one pointing north-west on a point top map (north on a flat top map).
impl AxisDR {
    /// The point top direction of the `hex2d` direction of index `i`: `YZ` is north-west,
    /// and the rest follow clockwise.
    pub fn from_hex2d_index(i: usize) -> (r: AxisDR)
        requires
            i < 6,
        ensures
            r.spec_dir_index() == (i + 5) % 6,
    {
        match i {
            0 => AxisDR::NW,
            1 => AxisDR::NE,
            2 => AxisDR::E,
            3 => AxisDR::SE,
            4 => AxisDR::SW,
            _ => AxisDR::W,
        }
    }

    /// The index of the `hex2d` direction that points this way on a point top map.
    pub fn hex2d_index(&self) -> (r: usize)
        ensures
            r == (self.spec_dir_index() + 1) % 6,
    {
        match self {
            AxisDR::NE => 1,
            AxisDR::E => 2,
            AxisDR::SE => 3,
            AxisDR::SW => 4,
            AxisDR::W => 5,
            AxisDR::NW => 0,
        }
    }
}

impl AxisDQ {
    /// The flat top direction of the `hex2d` direction of index `i`: `YZ` is north, and the
    /// rest follow clockwise.
    pub fn from_hex2d_index(i: usize) -> (r: AxisDQ)
        requires
            i < 6,
        ensures
            r.spec_dir_index() == i,
    {
        match i {
            0 => AxisDQ::N,
            1 => AxisDQ::NE,
            2 => AxisDQ::SE,
            3 => AxisDQ::S,
            4 => AxisDQ::SW,
            _ => AxisDQ::NW,
        }
    }

    /// The index of the `hex2d` direction that points this way on a flat top map.
    pub fn hex2d_index(&self) -> (r: usize)
        ensures
            r == self.spec_dir_index(),
    {
        match self {
            AxisDQ::N => 0,
            AxisDQ::NE => 1,
            AxisDQ::SE => 2,
            AxisDQ::S => 3,
            AxisDQ::SW => 4,
            AxisDQ::NW => 5,
        }
    }
}

pub trait OE {
    const IS_EVEN: bool;
    /// `1` when even, `0` when odd.
    const CONVERT_OFFSET: usize;

    /// [`IS_EVEN`](`OE::IS_EVEN`), as the contracts read it.
    spec fn spec_is_even() -> bool;

    /// [`CONVERT_OFFSET`](`OE::CONVERT_OFFSET`), as the contracts read it.
    spec fn spec_convert_offset() -> usize;

    /// [`CONVERT_OFFSET`](`OE::CONVERT_OFFSET`).
    fn convert_offset() -> (r: usize)
        ensures
            r == Self::spec_convert_offset(),
    ;

    /// The offset used in conversions is `1` when even and `0` when odd.
    proof fn lemma_convert_offset()
        ensures
            Self::spec_convert_offset() == (if Self::spec_is_even() {
                1usize
            } else {
                0usize
            }),
            Self::spec_convert_offset() <= 1,
    ;
}

/// Whether a hex lattice is flat top or point top.
pub trait RQ {
    const IS_FLAT_TOP: bool;

    /// [`IS_FLAT_TOP`](`RQ::IS_FLAT_TOP`), as the contracts read it.
    spec fn spec_is_flat_top() -> bool;

    /// [`IS_FLAT_TOP`](`RQ::IS_FLAT_TOP`).
    fn is_flat_top() -> (r: bool)
        ensures
            r == Self::spec_is_flat_top(),
    ;
}

/// Point top, odd rows shifted.
#[derive(Debug, Clone, Copy, PartialEq, Eq, PartialOrd, Ord, Hash)]
pub struct OddR;

impl OE for OddR {
    const IS_EVEN: bool = false;
    const CONVERT_OFFSET: usize = 0;

    open spec fn spec_is_even() -> bool {
        false
    }

    open spec fn spec_convert_offset() -> usize {
        0
    }

    fn convert_offset() -> (r: usize) {
        Self::CONVERT_OFFSET
    }

    proof fn lemma_convert_offset() {
    }
}

impl RQ for OddR {
    const IS_FLAT_TOP: bool = false;

    open spec fn spec_is_flat_top() -> bool {
        false
    }

    fn is_flat_top() -> (r: bool) {
        Self::IS_FLAT_TOP
    }
}

/// Point top, even rows shifted.
#[derive(Debug, Clone, Copy, PartialEq, Eq, PartialOrd, Ord, Hash)]
pub struct EvenR;

impl OE for EvenR {
    const IS_EVEN: bool = true;
    const CONVERT_OFFSET: usize = 1;

    open spec fn spec_is_even() -> bool {
        true
    }

    open spec fn spec_convert_offset() -> usize {
        1
    }

    fn convert_offset() -> (r: usize) {
        Self::CONVERT_OFFSET
    }

    proof fn lemma_convert_offset() {
    }
}

impl RQ for EvenR {
    const IS_FLAT_TOP: bool = false;

    open spec fn spec_is_flat_top() -> bool {
        false
    }

    fn is_flat_top() -> (r: bool) {
        Self::IS_FLAT_TOP
    }
}

/// Flat top, odd columns shifted.
#[derive(Debug, Clone, Copy, PartialEq, Eq, PartialOrd, Ord, Hash)]
pub struct OddQ;

impl OE for OddQ {
    const IS_EVEN: bool = false;
    const CONVERT_OFFSET: usize = 0;

    open spec fn spec_is_even() -> bool {
        false
    }

    open spec fn spec_convert_offset() -> usize {
        0
    }

    fn convert_offset() -> (r: usize) {
        Self::CONVERT_OFFSET
    }

    proof fn lemma_convert_offset() {
    }
}

impl RQ for OddQ {
    const IS_FLAT_TOP: bool = true;

    open spec fn spec_is_flat_top() -> bool {
        true
    }

    fn is_flat_top() -> (r: bool) {
        Self::IS_FLAT_TOP
    }
}

/// Flat top, even columns shifted.
#[derive(Debug, Clone, Copy, PartialEq, Eq, PartialOrd, Ord, Hash)]
pub struct EvenQ;

impl OE for EvenQ {
    const IS_EVEN: bool = true;
    const CONVERT_OFFSET: usize = 1;

    open spec fn spec_is_even() -> bool {
        true
    }

    open spec fn spec_convert_offset() -> usize {
        1
    }

    fn convert_offset() -> (r: usize) {
        Self::CONVERT_OFFSET
    }

    proof fn lemma_convert_offset() {
    }
}

impl RQ for EvenQ {
    const IS_FLAT_TOP: bool = true;

    open spec fn spec_is_flat_top() -> bool {
        true
    }

    fn is_flat_top() -> (r: bool) {
        Self::IS_FLAT_TOP
    }
}

/// Marker of whether and how a hex graph loops.
pub trait LoopMarker {
}

impl LoopMarker for () {
}

/// Marker for a loop in the E-W direction.
#[derive(Debug, Clone, Copy, PartialEq, Eq, PartialOrd, Ord, Hash)]
pub struct LEW;

impl LoopMarker for LEW {
}

/// Converting a `hex2d` direction index to a point top direction and back gives the index
/// back.
pub proof fn lemma_hex2d_index_roundtrip(i: nat, r: AxisDR)
    requires
        i < 6,
        r.spec_dir_index() == (i + 5) % 6,
    ensures
        (r.spec_dir_index() + 1) % 6 == i,
{
}

} // verus!
