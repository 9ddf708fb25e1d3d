//! Icon selection: how a grid label resolves to one icon name for a given
//! frame, and the small containers the recipe declares selections with.

use vstd::prelude::*;

verus! {

/// One value or a list of values, as a recipe declares them.
pub enum OneOrMany<T> {
    One(T),
    Many(Vec<T>),
}

impl<T> OneOrMany<T> {
    /// The declared values in order.
    pub open spec fn items(&self) -> Seq<T> {
        match self {
            OneOrMany::One(t) => seq![*t],
            OneOrMany::Many(v) => v@,
        }
    }

    /// The value at `index`, if there is one.
    pub fn get(&self, index: usize) -> (r: Option<&T>)
        ensures
            match r {
                Some(t) => index < self.items().len() && *t == self.items()[index as int],
                None => index >= self.items().len(),
            },
    {
        match self {
            OneOrMany::One(t) => if index == 0 {
                Some(t)
            } else {
                None
            },
            OneOrMany::Many(items) => if index < items.len() {
                Some(&items[index])
            } else {
                None
            },
        }
    }

    /// How many values are declared.
    pub fn len(&self) -> (r: usize)
        ensures
            r == self.items().len(),
    {
        match self {
            OneOrMany::One(_) => 1,
            OneOrMany::Many(items) => items.len(),
        }
    }
}

/// A value of one of two alternative shapes.
pub enum Either<A, B> {
    A(A),
    B(B),
}

/// The strategy by which a label with several icon variants picks one for
/// a given frame.
pub enum KeyItemMethod {
    /// The frame ordinal modulo the variant count.
    Frame,
    /// A random variant each time.
    Random,
    /// Fast cycling: the per-occurrence position advances by the label's
    /// occurrence count every frame.
    Cycle,
    /// Slow cycling: the per-occurrence position advances by one every
    /// frame.
    CycleSlow,
}

/// What a grid label maps to: one fixed icon name, or a list of variants
/// with a selection method.
pub enum KeyItem {
    Fixed(String),
    List { method: KeyItemMethod, items: Vec<String> },
}

/// Which icon name `item` may select at frame ordinal `index`, for a label
/// occurring `count` times in the grid, at slot `i`.
///
/// For every method but `Random` this pins the name exactly; a random
/// selection may yield any declared variant.
pub open spec fn selects(item: KeyItem, index: int, count: int, i: int, t: Seq<char>) -> bool {
    match item {
        KeyItem::Fixed(s) => t == s@,
        KeyItem::List { method, items } => items@.len() > 0 && match method {
            KeyItemMethod::Frame => t == items@[index % (items@.len() as int)]@,
            KeyItemMethod::Random => exists|j: int| 0 <= j < items@.len() && t == items@[j]@,
            KeyItemMethod::Cycle => t == items@[(index * count + i) % (items@.len() as int)]@,
            KeyItemMethod::CycleSlow => t == items@[(index + i) % (items@.len() as int)]@,
        },
    }
}

/// True when `item` has an icon name to offer at all: a fixed name, or a
/// non-empty variant list.
pub open spec fn has_item(item: KeyItem) -> bool {
    match item {
        KeyItem::Fixed(_) => true,
        KeyItem::List { items, .. } => items@.len() > 0,
    }
}

/// Relies on rand::random_range over `0..n`, which returns a uniformly
/// drawn value of the non-empty range; nothing beyond the bound is assumed
/// of it.
#[verifier::external_body]
fn random_below(n: usize) -> (r: usize)
    requires
        n > 0,
    ensures
        r < n,
{
    rand::random_range(0..n)
}

impl KeyItem {
    /// The icon name this item selects at frame ordinal `index`, for a
    /// label occurring `count` times in the grid, at slot `i`; `None` when
    /// the item declares an empty variant list.
    pub fn get_item(&self, index: usize, count: usize, i: usize) -> (r: Option<&str>)
        requires
            index * count + i <= usize::MAX,
            index + i <= usize::MAX,
        ensures
            match r {
                Some(s) => selects(*self, index as int, count as int, i as int, s@),
                None => !has_item(*self),
            },
    {
        match self {
            KeyItem::Fixed(s) => Some(s.as_str()),
            KeyItem::List { method, items } => {
                if items.len() == 0 {
                    None
                } else {
                    let sel: usize = match method {
                        KeyItemMethod::Frame => index % items.len(),
                        KeyItemMethod::Random => random_below(items.len()),
                        KeyItemMethod::Cycle => (index * count + i) % items.len(),
                        KeyItemMethod::CycleSlow => (index + i) % items.len(),
                    };
                    Some(items[sel].as_str())
                }
            },
        }
    }
}

} // verus!
