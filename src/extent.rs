use vstd::prelude::*;
use vstd::std_specs::convert::{IntoSpec, TryIntoSpec};

verus! {

/// Types with a zero value.
pub trait Zero: Sized {
    const ZERO: Self;
}

impl Zero for u32 {
    const ZERO: Self = 0;
}

impl Zero for i32 {
    const ZERO: Self = 0;
}

/// Types with a unit value.
pub trait One: Sized {
    const ONE: Self;
}

impl One for u32 {
    const ONE: Self = 1;
}

impl One for i32 {
    const ONE: Self = 1;
}

/// Offset with `D` coordinates.
#[derive(Clone, Copy, Debug, PartialEq, Eq, Hash)]
pub struct Offset<T, const D: usize>(pub [T; D]);

pub type Offset1<T = i32> = Offset<T, 1>;

pub type Offset2<T = i32> = Offset<T, 2>;

pub type Offset3<T = i32> = Offset<T, 3>;

/// Extent with `D` dimensions.
#[derive(Clone, Copy, Debug, PartialEq, Eq, Hash)]
pub struct Extent<T, const D: usize>(pub [T; D]);

pub type Extent1<T = u32> = Extent<T, 1>;

pub type Extent2<T = u32> = Extent<T, 2>;

pub type Extent3<T = u32> = Extent<T, 3>;

impl<T: Copy> Offset1<T> {
    pub fn new(x: T) -> (r: Self)
        ensures
            r.0@ == seq![x],
    {
        Offset([x])
    }

    pub fn x(&self) -> (r: T)
        ensures
            r == self.0@[0],
    {
        self.0[0]
    }

    /// Adds coordinates set to zero.
    pub fn to_2d(&self) -> (r: Offset<T, 2>)
        where
            T: Zero,
        ensures
            r.0@ == seq![self.0@[0], T::ZERO],
    {
        Offset([self.0[0], T::ZERO])
    }

    /// Adds coordinates set to zero.
    pub fn to_3d(&self) -> (r: Offset<T, 3>)
        where
            T: Zero,
        ensures
            r.0@ == seq![self.0@[0], T::ZERO, T::ZERO],
    {
        Offset([self.0[0], T::ZERO, T::ZERO])
    }

}

impl<T: Copy> Offset2<T> {
    pub fn new(x: T, y: T) -> (r: Self)
        ensures
            r.0@ == seq![x, y],
    {
        Offset([x, y])
    }

    pub fn x(&self) -> (r: T)
        ensures
            r == self.0@[0],
    {
        self.0[0]
    }

    pub fn y(&self) -> (r: T)
        ensures
            r == self.0@[1],
    {
        self.0[1]
    }

    /// Drops the coordinates past the first 1.
    pub fn to_1d(&self) -> (r: Offset<T, 1>)
        ensures
            r.0@ == seq![self.0@[0]],
    {
        Offset([self.0[0]])
    }

    /// Adds coordinates set to zero.
    pub fn to_3d(&self) -> (r: Offset<T, 3>)
        where
            T: Zero,
        ensures
            r.0@ == seq![self.0@[0], self.0@[1], T::ZERO],
    {
        Offset([self.0[0], self.0[1], T::ZERO])
    }

}

impl<T: Copy> Offset3<T> {
    pub fn new(x: T, y: T, z: T) -> (r: Self)
        ensures
            r.0@ == seq![x, y, z],
    {
        Offset([x, y, z])
    }

    pub fn x(&self) -> (r: T)
        ensures
            r == self.0@[0],
    {
        self.0[0]
    }

    pub fn y(&self) -> (r: T)
        ensures
            r == self.0@[1],
    {
        self.0[1]
    }

    pub fn z(&self) -> (r: T)
        ensures
            r == self.0@[2],
    {
        self.0[2]
    }

    /// Drops the coordinates past the first 1.
    pub fn to_1d(&self) -> (r: Offset<T, 1>)
        ensures
            r.0@ == seq![self.0@[0]],
    {
        Offset([self.0[0]])
    }

    /// Drops the coordinates past the first 2.
    pub fn to_2d(&self) -> (r: Offset<T, 2>)
        ensures
            r.0@ == seq![self.0@[0], self.0@[1]],
    {
        Offset([self.0[0], self.0[1]])
    }

}

impl<T: Copy> Extent1<T> {
    pub fn new(width: T) -> (r: Self)
        ensures
            r.0@ == seq![width],
    {
        Extent([width])
    }

    pub fn width(&self) -> (r: T)
        ensures
            r == self.0@[0],
    {
        self.0[0]
    }

    /// Adds dimensions of one.
    pub fn to_2d(&self) -> (r: Extent<T, 2>)
        where
            T: One,
        ensures
            r.0@ == seq![self.0@[0], T::ONE],
    {
        Extent([self.0[0], T::ONE])
    }

    /// Adds dimensions of one.
    pub fn to_3d(&self) -> (r: Extent<T, 3>)
        where
            T: One,
        ensures
            r.0@ == seq![self.0@[0], T::ONE, T::ONE],
    {
        Extent([self.0[0], T::ONE, T::ONE])
    }

}

impl<T: Copy> Extent2<T> {
    pub fn new(width: T, height: T) -> (r: Self)
        ensures
            r.0@ == seq![width, height],
    {
        Extent([width, height])
    }

    pub fn width(&self) -> (r: T)
        ensures
            r == self.0@[0],
    {
        self.0[0]
    }

    pub fn height(&self) -> (r: T)
        ensures
            r == self.0@[1],
    {
        self.0[1]
    }

    /// Drops the dimensions past the first 1.
    pub fn to_1d(&self) -> (r: Extent<T, 1>)
        ensures
            r.0@ == seq![self.0@[0]],
    {
        Extent([self.0[0]])
    }

    /// Adds dimensions of one.
    pub fn to_3d(&self) -> (r: Extent<T, 3>)
        where
            T: One,
        ensures
            r.0@ == seq![self.0@[0], self.0@[1], T::ONE],
    {
        Extent([self.0[0], self.0[1], T::ONE])
    }

}

impl<T: Copy> Extent3<T> {
    pub fn new(width: T, height: T, depth: T) -> (r: Self)
        ensures
            r.0@ == seq![width, height, depth],
    {
        Extent([width, height, depth])
    }

    pub fn width(&self) -> (r: T)
        ensures
            r == self.0@[0],
    {
        self.0[0]
    }

    pub fn height(&self) -> (r: T)
        ensures
            r == self.0@[1],
    {
        self.0[1]
    }

    pub fn depth(&self) -> (r: T)
        ensures
            r == self.0@[2],
    {
        self.0[2]
    }

    /// Drops the dimensions past the first 1.
    pub fn to_1d(&self) -> (r: Extent<T, 1>)
        ensures
            r.0@ == seq![self.0@[0]],
    {
        Extent([self.0[0]])
    }

    /// Drops the dimensions past the first 2.
    pub fn to_2d(&self) -> (r: Extent<T, 2>)
        ensures
            r.0@ == seq![self.0@[0], self.0@[1]],
    {
        Extent([self.0[0], self.0[1]])
    }

}

impl<T: Copy> Offset<T, 1> {
    /// Applies `f` to each component.
    pub fn map<U, F: Fn(T) -> U>(self, f: F) -> (r: Offset<U, 1>)
        requires
            forall|t: T| f.requires((t,)),
        ensures
            f.ensures((self.0@[0],), r.0@[0]),
    {
        Offset([f(self.0[0])])
    }

    /// Converts each component of `v`.
    pub fn cast<U: Into<T> + Copy>(v: Offset<U, 1>) -> (r: Self)
        ensures
            <U as IntoSpec<T>>::obeys_into_spec() ==> r.0@ == seq![<U as IntoSpec<T>>::into_spec(v.0@[0])],
    {
        Offset([v.0[0].into()])
    }

    /// Converts each component of `v`, in order, stopping at the first
    /// that does not convert.
    pub fn try_cast<U: TryInto<T> + Copy>(v: Offset<U, 1>) -> (r: Result<Self, U::Error>)
        ensures
            <U as TryIntoSpec<T>>::obeys_try_into_spec() ==> (r is Ok <==> (<U as TryIntoSpec<T>>::try_into_spec(v.0@[0]) is Ok)),
            <U as TryIntoSpec<T>>::obeys_try_into_spec() && r is Ok ==> r->Ok_0.0@[0] == <U as TryIntoSpec<T>>::try_into_spec(v.0@[0])->Ok_0,
            <U as TryIntoSpec<T>>::obeys_try_into_spec() && r is Err ==> (<U as TryIntoSpec<T>>::try_into_spec(v.0@[0]) == Err::<T, U::Error>(r->Err_0)),
    {
        let x0 = match v.0[0].try_into() {
            Ok(x) => x,
            Err(e) => return Err(e),
        };
        Ok(Offset([x0]))
    }
}

impl<T: Copy> Offset<T, 2> {
    /// Applies `f` to each component.
    pub fn map<U, F: Fn(T) -> U>(self, f: F) -> (r: Offset<U, 2>)
        requires
            forall|t: T| f.requires((t,)),
        ensures
            f.ensures((self.0@[0],), r.0@[0]),
            f.ensures((self.0@[1],), r.0@[1]),
    {
        Offset([f(self.0[0]), f(self.0[1])])
    }

    /// Converts each component of `v`.
    pub fn cast<U: Into<T> + Copy>(v: Offset<U, 2>) -> (r: Self)
        ensures
            <U as IntoSpec<T>>::obeys_into_spec() ==> r.0@ == seq![<U as IntoSpec<T>>::into_spec(v.0@[0]), <U as IntoSpec<T>>::into_spec(v.0@[1])],
    {
        Offset([v.0[0].into(), v.0[1].into()])
    }

    /// Converts each component of `v`, in order, stopping at the first
    /// that does not convert.
    pub fn try_cast<U: TryInto<T> + Copy>(v: Offset<U, 2>) -> (r: Result<Self, U::Error>)
        ensures
            <U as TryIntoSpec<T>>::obeys_try_into_spec() ==> (r is Ok <==> (<U as TryIntoSpec<T>>::try_into_spec(v.0@[0]) is Ok && <U as TryIntoSpec<T>>::try_into_spec(v.0@[1]) is Ok)),
            <U as TryIntoSpec<T>>::obeys_try_into_spec() && r is Ok ==> r->Ok_0.0@[0] == <U as TryIntoSpec<T>>::try_into_spec(v.0@[0])->Ok_0
                && r->Ok_0.0@[1] == <U as TryIntoSpec<T>>::try_into_spec(v.0@[1])->Ok_0,
            <U as TryIntoSpec<T>>::obeys_try_into_spec() && r is Err ==> (<U as TryIntoSpec<T>>::try_into_spec(v.0@[0]) == Err::<T, U::Error>(r->Err_0)) || (<U as TryIntoSpec<T>>::try_into_spec(v.0@[0]) is Ok && <U as TryIntoSpec<T>>::try_into_spec(v.0@[1]) == Err::<T, U::Error>(r->Err_0)),
    {
        let x0 = match v.0[0].try_into() {
            Ok(x) => x,
            Err(e) => return Err(e),
        };
        let x1 = match v.0[1].try_into() {
            Ok(x) => x,
            Err(e) => return Err(e),
        };
        Ok(Offset([x0, x1]))
    }
}

impl<T: Copy> Offset<T, 3> {
    /// Applies `f` to each component.
    pub fn map<U, F: Fn(T) -> U>(self, f: F) -> (r: Offset<U, 3>)
        requires
            forall|t: T| f.requires((t,)),
        ensures
            f.ensures((self.0@[0],), r.0@[0]),
            f.ensures((self.0@[1],), r.0@[1]),
            f.ensures((self.0@[2],), r.0@[2]),
    {
        Offset([f(self.0[0]), f(self.0[1]), f(self.0[2])])
    }

    /// Converts each component of `v`.
    pub fn cast<U: Into<T> + Copy>(v: Offset<U, 3>) -> (r: Self)
        ensures
            <U as IntoSpec<T>>::obeys_into_spec() ==> r.0@ == seq![<U as IntoSpec<T>>::into_spec(v.0@[0]), <U as IntoSpec<T>>::into_spec(v.0@[1]), <U as IntoSpec<T>>::into_spec(v.0@[2])],
    {
        Offset([v.0[0].into(), v.0[1].into(), v.0[2].into()])
    }

    /// Converts each component of `v`, in order, stopping at the first
    /// that does not convert.
    pub fn try_cast<U: TryInto<T> + Copy>(v: Offset<U, 3>) -> (r: Result<Self, U::Error>)
        ensures
            <U as TryIntoSpec<T>>::obeys_try_into_spec() ==> (r is Ok <==> (<U as TryIntoSpec<T>>::try_into_spec(v.0@[0]) is Ok && <U as TryIntoSpec<T>>::try_into_spec(v.0@[1]) is Ok && <U as TryIntoSpec<T>>::try_into_spec(v.0@[2]) is Ok)),
            <U as TryIntoSpec<T>>::obeys_try_into_spec() && r is Ok ==> r->Ok_0.0@[0] == <U as TryIntoSpec<T>>::try_into_spec(v.0@[0])->Ok_0
                && r->Ok_0.0@[1] == <U as TryIntoSpec<T>>::try_into_spec(v.0@[1])->Ok_0
                && r->Ok_0.0@[2] == <U as TryIntoSpec<T>>::try_into_spec(v.0@[2])->Ok_0,
            <U as TryIntoSpec<T>>::obeys_try_into_spec() && r is Err ==> (<U as TryIntoSpec<T>>::try_into_spec(v.0@[0]) == Err::<T, U::Error>(r->Err_0)) || (<U as TryIntoSpec<T>>::try_into_spec(v.0@[0]) is Ok && <U as TryIntoSpec<T>>::try_into_spec(v.0@[1]) == Err::<T, U::Error>(r->Err_0)) || (<U as TryIntoSpec<T>>::try_into_spec(v.0@[0]) is Ok && <U as TryIntoSpec<T>>::try_into_spec(v.0@[1]) is Ok && <U as TryIntoSpec<T>>::try_into_spec(v.0@[2]) == Err::<T, U::Error>(r->Err_0)),
    {
        let x0 = match v.0[0].try_into() {
            Ok(x) => x,
            Err(e) => return Err(e),
        };
        let x1 = match v.0[1].try_into() {
            Ok(x) => x,
            Err(e) => return Err(e),
        };
        let x2 = match v.0[2].try_into() {
            Ok(x) => x,
            Err(e) => return Err(e),
        };
        Ok(Offset([x0, x1, x2]))
    }
}

impl<T: Copy> Extent<T, 1> {
    /// Applies `f` to each component.
    pub fn map<U, F: Fn(T) -> U>(self, f: F) -> (r: Extent<U, 1>)
        requires
            forall|t: T| f.requires((t,)),
        ensures
            f.ensures((self.0@[0],), r.0@[0]),
    {
        Extent([f(self.0[0])])
    }

    /// Converts each component of `v`.
    pub fn cast<U: Into<T> + Copy>(v: Extent<U, 1>) -> (r: Self)
        ensures
            <U as IntoSpec<T>>::obeys_into_spec() ==> r.0@ == seq![<U as IntoSpec<T>>::into_spec(v.0@[0])],
    {
        Extent([v.0[0].into()])
    }

    /// Converts each component of `v`, in order, stopping at the first
    /// that does not convert.
    pub fn try_cast<U: TryInto<T> + Copy>(v: Extent<U, 1>) -> (r: Result<Self, U::Error>)
        ensures
            <U as TryIntoSpec<T>>::obeys_try_into_spec() ==> (r is Ok <==> (<U as TryIntoSpec<T>>::try_into_spec(v.0@[0]) is Ok)),
            <U as TryIntoSpec<T>>::obeys_try_into_spec() && r is Ok ==> r->Ok_0.0@[0] == <U as TryIntoSpec<T>>::try_into_spec(v.0@[0])->Ok_0,
            <U as TryIntoSpec<T>>::obeys_try_into_spec() && r is Err ==> (<U as TryIntoSpec<T>>::try_into_spec(v.0@[0]) == Err::<T, U::Error>(r->Err_0)),
    {
        let x0 = match v.0[0].try_into() {
            Ok(x) => x,
            Err(e) => return Err(e),
        };
        Ok(Extent([x0]))
    }
}

impl<T: Copy> Extent<T, 2> {
    /// Applies `f` to each component.
    pub fn map<U, F: Fn(T) -> U>(self, f: F) -> (r: Extent<U, 2>)
        requires
            forall|t: T| f.requires((t,)),
        ensures
            f.ensures((self.0@[0],), r.0@[0]),
            f.ensures((self.0@[1],), r.0@[1]),
    {
        Extent([f(self.0[0]), f(self.0[1])])
    }

    /// Converts each component of `v`.
    pub fn cast<U: Into<T> + Copy>(v: Extent<U, 2>) -> (r: Self)
        ensures
            <U as IntoSpec<T>>::obeys_into_spec() ==> r.0@ == seq![<U as IntoSpec<T>>::into_spec(v.0@[0]), <U as IntoSpec<T>>::into_spec(v.0@[1])],
    {
        Extent([v.0[0].into(), v.0[1].into()])
    }

    /// Converts each component of `v`, in order, stopping at the first
    /// that does not convert.
    pub fn try_cast<U: TryInto<T> + Copy>(v: Extent<U, 2>) -> (r: Result<Self, U::Error>)
        ensures
            <U as TryIntoSpec<T>>::obeys_try_into_spec() ==> (r is Ok <==> (<U as TryIntoSpec<T>>::try_into_spec(v.0@[0]) is Ok && <U as TryIntoSpec<T>>::try_into_spec(v.0@[1]) is Ok)),
            <U as TryIntoSpec<T>>::obeys_try_into_spec() && r is Ok ==> r->Ok_0.0@[0] == <U as TryIntoSpec<T>>::try_into_spec(v.0@[0])->Ok_0
                && r->Ok_0.0@[1] == <U as TryIntoSpec<T>>::try_into_spec(v.0@[1])->Ok_0,
            <U as TryIntoSpec<T>>::obeys_try_into_spec() && r is Err ==> (<U as TryIntoSpec<T>>::try_into_spec(v.0@[0]) == Err::<T, U::Error>(r->Err_0)) || (<U as TryIntoSpec<T>>::try_into_spec(v.0@[0]) is Ok && <U as TryIntoSpec<T>>::try_into_spec(v.0@[1]) == Err::<T, U::Error>(r->Err_0)),
    {
        let x0 = match v.0[0].try_into() {
            Ok(x) => x,
            Err(e) => return Err(e),
        };
        let x1 = match v.0[1].try_into() {
            Ok(x) => x,
            Err(e) => return Err(e),
        };
        Ok(Extent([x0, x1]))
    }
}

impl<T: Copy> Extent<T, 3> {
    /// Applies `f` to each component.
    pub fn map<U, F: Fn(T) -> U>(self, f: F) -> (r: Extent<U, 3>)
        requires
            forall|t: T| f.requires((t,)),
        ensures
            f.ensures((self.0@[0],), r.0@[0]),
            f.ensures((self.0@[1],), r.0@[1]),
            f.ensures((self.0@[2],), r.0@[2]),
    {
        Extent([f(self.0[0]), f(self.0[1]), f(self.0[2])])
    }

    /// Converts each component of `v`.
    pub fn cast<U: Into<T> + Copy>(v: Extent<U, 3>) -> (r: Self)
        ensures
            <U as IntoSpec<T>>::obeys_into_spec() ==> r.0@ == seq![<U as IntoSpec<T>>::into_spec(v.0@[0]), <U as IntoSpec<T>>::into_spec(v.0@[1]), <U as IntoSpec<T>>::into_spec(v.0@[2])],
    {
        Extent([v.0[0].into(), v.0[1].into(), v.0[2].into()])
    }

    /// Converts each component of `v`, in order, stopping at the first
    /// that does not convert.
    pub fn try_cast<U: TryInto<T> + Copy>(v: Extent<U, 3>) -> (r: Result<Self, U::Error>)
        ensures
            <U as TryIntoSpec<T>>::obeys_try_into_spec() ==> (r is Ok <==> (<U as TryIntoSpec<T>>::try_into_spec(v.0@[0]) is Ok && <U as TryIntoSpec<T>>::try_into_spec(v.0@[1]) is Ok && <U as TryIntoSpec<T>>::try_into_spec(v.0@[2]) is Ok)),
            <U as TryIntoSpec<T>>::obeys_try_into_spec() && r is Ok ==> r->Ok_0.0@[0] == <U as TryIntoSpec<T>>::try_into_spec(v.0@[0])->Ok_0
                && r->Ok_0.0@[1] == <U as TryIntoSpec<T>>::try_into_spec(v.0@[1])->Ok_0
                && r->Ok_0.0@[2] == <U as TryIntoSpec<T>>::try_into_spec(v.0@[2])->Ok_0,
            <U as TryIntoSpec<T>>::obeys_try_into_spec() && r is Err ==> (<U as TryIntoSpec<T>>::try_into_spec(v.0@[0]) == Err::<T, U::Error>(r->Err_0)) || (<U as TryIntoSpec<T>>::try_into_spec(v.0@[0]) is Ok && <U as TryIntoSpec<T>>::try_into_spec(v.0@[1]) == Err::<T, U::Error>(r->Err_0)) || (<U as TryIntoSpec<T>>::try_into_spec(v.0@[0]) is Ok && <U as TryIntoSpec<T>>::try_into_spec(v.0@[1]) is Ok && <U as TryIntoSpec<T>>::try_into_spec(v.0@[2]) == Err::<T, U::Error>(r->Err_0)),
    {
        let x0 = match v.0[0].try_into() {
            Ok(x) => x,
            Err(e) => return Err(e),
        };
        let x1 = match v.0[1].try_into() {
            Ok(x) => x,
            Err(e) => return Err(e),
        };
        let x2 = match v.0[2].try_into() {
            Ok(x) => x,
            Err(e) => return Err(e),
        };
        Ok(Extent([x0, x1, x2]))
    }
}

} // verus!
