//! A monster's typing: a primary element and an optional secondary one.

use vstd::prelude::*;

use crate::element::Element;

verus! {

/// Dual typing: the secondary element is optional and, when present, need
/// not differ from the primary.
#[derive(Clone, Copy, Debug, PartialEq, Eq, Structural)]
pub struct MonsterType {
    pub primary_element: Element,
    pub secondary_element: Option<Element>,
}

impl MonsterType {
    pub fn new(primary_element: Element, secondary_element: Option<Element>) -> (r: MonsterType)
        ensures
            r == (MonsterType { primary_element, secondary_element }),
    {
        MonsterType { primary_element, secondary_element }
    }

    pub fn primary_element(&self) -> (r: &Element)
        ensures
            *r == self.primary_element,
    {
        &self.primary_element
    }

    pub fn secondary_element(&self) -> (r: Option<&Element>)
        ensures
            r is Some <==> self.secondary_element is Some,
            r matches Some(element) ==> self.secondary_element == Some(*element),
    {
        if let Some(element) = &self.secondary_element {
            return Some(element);
        }
        None
    }
}

} // verus!
