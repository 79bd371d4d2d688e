//! The use-remainder component: what an item turns into once used up.
use vstd::prelude::*;
use crate::identifier::{Identifier, IdentifierModel};

verus! {

/// The item that remains after use, named by its key.
#[derive(Debug, PartialEq)]
pub struct UseRemainder {
    identifier: Identifier,
}

/// What becomes of a used stack.
#[derive(Debug, Clone, Copy, PartialEq, Eq, Structural)]
pub enum RemainderOutcome {
    /// The used stack stays as it is.
    KeepUsedStack,
    /// The stack becomes the remainder item; `announce` says whether the
    /// extra stack is handed to the caller's callback (it is not empty).
    Remainder { announce: bool },
}

impl UseRemainder {
    /// A remainder naming the item with the given key.
    pub fn new(identifier: Identifier) -> (r: Self)
        ensures
            r.identifier_model() == identifier@,
    {
        UseRemainder { identifier }
    }

    /// The key of the remainder item as the contracts see it.
    pub closed spec fn identifier_model(&self) -> IdentifierModel {
        self.identifier@
    }

    /// The key of the remainder item.
    pub fn identifier(&self) -> (k: &Identifier)
        ensures
            k@ == self.identifier_model(),
    {
        &self.identifier
    }

    /// Whether a used stack turns into the remainder: not with infinite
    /// materials, and not while the stack has not shrunk. A remainder that
    /// is not empty is announced.
    pub fn convert_into_remainder(
        &self,
        used_count: i32,
        stack_count_before_using: i32,
        has_infinite_materials: bool,
        remainder_is_empty: bool,
    ) -> (o: RemainderOutcome)
        ensures
            (has_infinite_materials || used_count >= stack_count_before_using) ==> o
                == RemainderOutcome::KeepUsedStack,
            !(has_infinite_materials || used_count >= stack_count_before_using) ==> o
                == (RemainderOutcome::Remainder { announce: !remainder_is_empty }),
    {
        if has_infinite_materials || used_count >= stack_count_before_using {
            return RemainderOutcome::KeepUsedStack;
        }
        RemainderOutcome::Remainder { announce: !remainder_is_empty }
    }
}

} // verus!
