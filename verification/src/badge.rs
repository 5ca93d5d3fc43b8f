//! Count badges.
use vstd::prelude::*;
use crate::text::{decimal, push_decimal};

verus! {

/// The text of a count badge: counts above 99 read `99+`; zero is shown too.
pub fn badge_label(count: u32) -> (label: String)
    ensures
        label@ == if count > 99 { "99+"@ } else { decimal(count as nat) },
{
    if count > 99 {
        String::from_str("99+")
    } else {
        let mut label = String::new();
        push_decimal(&mut label, count);
        assert(label@ =~= decimal(count as nat));
        label
    }
}

} // verus!
