use std::sync::Arc;
use vstd::prelude::*;

verus! {

/// Error returned when a write-once holder is filled a second time.
#[derive(Debug, Clone, Copy, PartialEq, Eq, Structural)]
pub struct AlreadyFilled;

/// A holder that is filled at most once and then hands out the same shared
/// value on every read.
pub struct SingleInitCell<T> {
    value: Option<Arc<T>>,
}

impl<T> View for SingleInitCell<T> {
    type V = Option<Arc<T>>;

    closed spec fn view(&self) -> Option<Arc<T>> {
        self.value
    }
}

impl<T> SingleInitCell<T> {
    /// An empty cell.
    pub fn new() -> (c: Self)
        ensures
            c@ is None,
    {
        SingleInitCell { value: None }
    }

    /// Fills an empty cell; a filled cell is left exactly as it was.
    pub fn set(&mut self, v: Arc<T>) -> (r: Result<(), AlreadyFilled>)
        ensures
            old(self)@ is None ==> r is Ok && final(self)@ == Some(v),
            old(self)@ is Some ==> r == Err::<(), AlreadyFilled>(AlreadyFilled) && final(self)@ == old(self)@,
    {
        if self.value.is_some() {
            Err(AlreadyFilled)
        } else {
            self.value = Some(v);
            Ok(())
        }
    }

    /// The shared value, or `None` while the cell is empty.
    pub fn get(&self) -> (r: Option<Arc<T>>)
        ensures
            r == self@,
    {
        match &self.value {
            Some(v) => Some(v.clone()),
            None => None,
        }
    }

    /// Whether the cell has been filled.
    pub fn is_filled(&self) -> (r: bool)
        ensures
            r == (self@ is Some),
    {
        self.value.is_some()
    }
}

} // verus!
