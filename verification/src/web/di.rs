//! Inversion of control: a dependency that is either given at once or bound
//! late, once, through a shared reference.

use crate::chars::{extend_str, to_string};
use std::marker::PhantomData;
use std::sync::{Arc, OnceLock};
use vstd::prelude::*;

verus! {

/// `std::sync::OnceLock`: a cell that is written at most once, through a
/// shared reference. What it holds can change between two looks at it, so
/// nothing here speaks of its content.
#[verifier::external_type_specification]
#[verifier::external_body]
#[verifier::reject_recursive_types(T)]
pub struct ExOnceLock<T>(OnceLock<T>);

/// `OnceLock::new` makes a cell.
pub assume_specification<T>[ OnceLock::<T>::new ]() -> OnceLock<T>;

/// `OnceLock::get` hands out the content, if the cell has been written.
pub assume_specification<T>[ OnceLock::<T>::get ](cell: &OnceLock<T>) -> Option<&T>;

/// `OnceLock::set` writes the cell if it is empty and hands the value back
/// if it is not.
pub assume_specification<T>[ OnceLock::<T>::set ](cell: &OnceLock<T>, value: T) -> (out: Result<
    (),
    T,
>)
    ensures
        out matches Err(rejected) ==> rejected == value,
;

/// `Arc::clone` makes another pointer to the same value.
#[verifier::external_body]
fn share<T: ?Sized>(arc: &Arc<T>) -> (out: Arc<T>)
    ensures
        out == *arc,
{
    arc.clone()
}

/// `OnceLock::clone` makes a cell with a clone of the content, or an empty
/// one.
#[verifier::external_body]
fn copy_cell<T: ?Sized>(cell: &OnceLock<Arc<T>>) -> OnceLock<Arc<T>> {
    cell.clone()
}

/// The two forms of a dependency.
#[derive(Clone, Copy, Debug, PartialEq, Eq, Structural)]
pub enum Variant {
    /// Given when the dependency was made.
    Arc,
    /// Bound later, at most once.
    LazyArc,
}

/// Wrapper type for managing dependency.
#[verifier::reject_recursive_types(T)]
pub struct Dep<T: 'static + ?Sized>(DepInner<T>);

#[verifier::reject_recursive_types(T)]
enum DepInner<T: 'static + ?Sized> {
    Arc(Arc<T>),
    LazyArc(OnceLock<Arc<T>>),
}

/// Why one dependency could not be bound to another.
pub enum BindError {
    InitializedDestinationCell,
    UninitializedSourceCell,
    IncompatibleVariant { src: &'static str, dst: &'static str },
}

/// A dependency that was used before it was bound.
pub struct AsRefError<T: ?Sized>(PhantomData<T>);

impl Variant {
    /// The name of the variant.
    pub open spec fn name(self) -> &'static str {
        match self {
            Variant::Arc => "Arc",
            Variant::LazyArc => "LazyArc",
        }
    }

    /// The name of the variant.
    pub fn as_str(self) -> (out: &'static str)
        ensures
            out == self.name(),
    {
        match self {
            Variant::Arc => "Arc",
            Variant::LazyArc => "LazyArc",
        }
    }
}

/// What binding a source to a destination comes to. Only a late-bound
/// destination can be bound to. `source` tells whether the source holds a
/// value, which a given one always does. `stored` tells whether the
/// destination took the value, and is absent where none was offered to it.
pub open spec fn bind_outcome(src: Variant, source: bool, dst: Variant, stored: Option<bool>) -> Result<
    (),
    BindError,
> {
    match dst {
        Variant::Arc => Err(BindError::IncompatibleVariant { src: src.name(), dst: dst.name() }),
        Variant::LazyArc => if !source {
            Err(BindError::UninitializedSourceCell)
        } else if stored == Some(true) {
            Ok(())
        } else {
            Err(BindError::InitializedDestinationCell)
        },
    }
}

/// The result of binding, given what the cells said.
pub fn bind_result(src: Variant, source: bool, dst: Variant, stored: Option<bool>) -> (out: Result<
    (),
    BindError,
>)
    ensures
        out == bind_outcome(src, source, dst, stored),
{
    match dst {
        Variant::Arc => Err(BindError::IncompatibleVariant { src: src.as_str(), dst: dst.as_str() }),
        Variant::LazyArc => if !source {
            Err(BindError::UninitializedSourceCell)
        } else {
            match stored {
                Some(true) => Ok(()),
                _ => Err(BindError::InitializedDestinationCell),
            }
        },
    }
}

impl BindError {
    /// Whether binding cannot go on after this error. An attempt to bind a
    /// destination that is bound already is harmless: it keeps its value.
    pub open spec fn fatal(self) -> bool {
        !(self is InitializedDestinationCell)
    }

    /// Whether binding cannot go on after this error.
    pub fn is_fatal(&self) -> (out: bool)
        ensures
            out == self.fatal(),
    {
        match self {
            BindError::InitializedDestinationCell => false,
            _ => true,
        }
    }

    /// The text of the error.
    pub open spec fn description(self) -> Seq<char> {
        match self {
            BindError::InitializedDestinationCell => "destination cell is already initialized"@,
            BindError::UninitializedSourceCell => "source cell is uninitialized"@,
            BindError::IncompatibleVariant { src, dst } => "incompatible variant, src variant: "@
                + src@ + ", dst variant: "@ + dst@,
        }
    }

    /// The text of the error.
    pub fn message(&self) -> (out: String)
        ensures
            out@ == self.description(),
    {
        let mut out: Vec<char> = Vec::new();
        match self {
            BindError::InitializedDestinationCell => extend_str(
                &mut out,
                "destination cell is already initialized",
            ),
            BindError::UninitializedSourceCell => extend_str(
                &mut out,
                "source cell is uninitialized",
            ),
            BindError::IncompatibleVariant { src, dst } => {
                extend_str(&mut out, "incompatible variant, src variant: ");
                extend_str(&mut out, src);
                extend_str(&mut out, ", dst variant: ");
                extend_str(&mut out, dst);
            },
        }
        to_string(&out)
    }
}

impl<T: ?Sized> AsRefError<T> {
    pub fn new() -> Self {
        Self(PhantomData)
    }

    /// The text of the error, given what the dependency's type is called.
    pub fn describe(&self, called: &str) -> (out: String)
        ensures
            out@ == "Dependency of type "@ + called@ + " is uninitialized"@,
    {
        let mut out: Vec<char> = Vec::new();
        extend_str(&mut out, "Dependency of type ");
        extend_str(&mut out, called);
        extend_str(&mut out, " is uninitialized");
        to_string(&out)
    }
}

impl<T: Sized> Dep<T> {
    /// Create a new dependency.
    pub fn new(val: T) -> (out: Self)
        ensures
            out.variant() == Variant::Arc,
            *out.given() == val,
    {
        Self::new_arc(Arc::new(val))
    }
}

impl<T: ?Sized> Dep<T> {
    /// The form of this dependency.
    pub closed spec fn variant(&self) -> Variant {
        match self.0 {
            DepInner::Arc(_) => Variant::Arc,
            DepInner::LazyArc(_) => Variant::LazyArc,
        }
    }

    /// The dependency that was given `arc` when it was made.
    pub closed spec fn holding(arc: Arc<T>) -> Self {
        Dep(DepInner::Arc(arc))
    }

    /// A dependency that holds a value has the form of one and that value.
    pub proof fn lemma_holding(arc: Arc<T>)
        ensures
            Self::holding(arc).variant() == Variant::Arc,
            Self::holding(arc).given() == arc,
    {
    }

    /// The value of a dependency that was given one when it was made.
    pub closed spec fn given(&self) -> Arc<T> {
        match self.0 {
            DepInner::Arc(arc) => arc,
            DepInner::LazyArc(_) => arbitrary(),
        }
    }

    pub fn new_arc(arc: Arc<T>) -> (out: Self)
        ensures
            out == Self::holding(arc),
            out.variant() == Variant::Arc,
            out.given() == arc,
    {
        Self(DepInner::Arc(arc))
    }

    /// A dependency that is to be bound later.
    pub fn lazy() -> (out: Self)
        ensures
            out.variant() == Variant::LazyArc,
    {
        Self(DepInner::LazyArc(OnceLock::new()))
    }

    /// The form of this dependency.
    pub fn kind(this: &Self) -> (out: Variant)
        ensures
            out == this.variant(),
    {
        match &this.0 {
            DepInner::Arc(_) => Variant::Arc,
            DepInner::LazyArc(_) => Variant::LazyArc,
        }
    }

    /// The value, if there is one by now. A dependency that was given its
    /// value always has it.
    pub fn try_as_ref(this: &Self) -> (out: Result<&T, AsRefError<T>>)
        ensures
            this.variant() == Variant::Arc ==> (out matches Ok(value) && value == &*this.given()),
    {
        match Self::as_arc(this) {
            Some(arc) => Ok(&**arc),
            None => Err(AsRefError::new()),
        }
    }

    /// Binds `dst` to the value of `src`, unless `dst` has a value already,
    /// which it then keeps. `src` has to be given and `dst` late-bound; for
    /// a source that is itself late-bound, see [`Dep::try_bind`].
    pub fn bind(src: &Self, dst: &Self)
        requires
            src.variant() == Variant::Arc,
            dst.variant() == Variant::LazyArc,
    {
        match Self::try_bind(src, dst) {
            Ok(_) => {},
            Err(err) => {
                assert(!err.fatal());
            },
        }
    }

    /// Binds `dst` to the value of `src`. The result follows
    /// [`bind_outcome`] from what the cells of the two say when they are
    /// looked at.
    pub fn try_bind(src: &Self, dst: &Self) -> (out: Result<(), BindError>)
        ensures
            exists|source: bool, stored: Option<bool>|
                out == bind_outcome(src.variant(), source, dst.variant(), stored) && (src.variant()
                    == Variant::Arc ==> source),
    {
        let offered: Option<Arc<T>> = match Self::as_arc(src) {
            Some(arc) => Some(share(arc)),
            None => None,
        };
        let source = offered.is_some();
        let stored: Option<bool> = match (&dst.0, offered) {
            (DepInner::LazyArc(cell), Some(arc)) => Some(cell.set(arc).is_ok()),
            _ => None,
        };
        bind_result(Self::kind(src), source, Self::kind(dst), stored)
    }

    /// Returns `true` if `this` is initialized.
    pub fn is_initialized(this: &Self) -> (out: bool)
        ensures
            this.variant() == Variant::Arc ==> out,
    {
        match &this.0 {
            DepInner::Arc(..) => true,
            DepInner::LazyArc(cell) => cell.get().is_some(),
        }
    }

    /// States that `this` has its value, which a given dependency always
    /// has.
    pub fn assert_initialized(this: &Self)
        requires
            this.variant() == Variant::Arc,
    {
        let initialized = Self::is_initialized(this);
        assert(initialized);
    }

    /// The shared value, if there is one by now.
    pub fn as_arc(this: &Self) -> (out: Option<&Arc<T>>)
        ensures
            this.variant() == Variant::Arc ==> out == Some(&this.given()),
    {
        match &this.0 {
            DepInner::Arc(arc) => Some(arc),
            DepInner::LazyArc(cell) => cell.get(),
        }
    }

    /// Calls `f` on the value, if there is one by now.
    pub fn try_with<F, R>(&self, f: F) -> (out: Result<R, ()>) where F: FnOnce(&T) -> R
        requires
            forall|value: &T| f.requires((value,)),
        ensures
            self.variant() == Variant::Arc ==> (out matches Ok(r) && f.ensures(
                (&*self.given(),),
                r,
            )),
    {
        match Dep::try_as_ref(self) {
            Ok(value) => Ok(f(value)),
            Err(_) => Err(()),
        }
    }
}

impl<T> From<T> for Dep<T> {
    fn from(val: T) -> (out: Self) {
        Self(DepInner::Arc(Arc::new(val)))
    }
}

impl<T> vstd::std_specs::convert::FromSpecImpl<T> for Dep<T> {
    open spec fn obeys_from_spec() -> bool {
        true
    }

    open spec fn from_spec(val: T) -> Self {
        Dep::holding(Arc::new(val))
    }
}

impl<T: ?Sized> From<Arc<T>> for Dep<T> {
    fn from(val: Arc<T>) -> (out: Self) {
        Self(DepInner::Arc(val))
    }
}

impl<T: ?Sized> vstd::std_specs::convert::FromSpecImpl<Arc<T>> for Dep<T> {
    open spec fn obeys_from_spec() -> bool {
        true
    }

    open spec fn from_spec(val: Arc<T>) -> Self {
        Dep::holding(val)
    }
}

impl<T: ?Sized> Clone for DepInner<T> {
    fn clone(&self) -> Self {
        match self {
            DepInner::Arc(arc) => DepInner::Arc(share(arc)),
            DepInner::LazyArc(cell) => DepInner::LazyArc(copy_cell(cell)),
        }
    }
}

impl<T: ?Sized> Clone for Dep<T> {
    fn clone(&self) -> Self {
        Self(self.0.clone())
    }
}

} // verus!
