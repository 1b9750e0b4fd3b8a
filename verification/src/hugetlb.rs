//! The HugeTLB setting of a pool or a listener: streams get HugeTLB buffers
//! of the chosen page size once it is set, and it can be set only once.

use vstd::prelude::*;

use hugepage::HugePageChoice;

use crate::error::YaoiError;

verus! {

/// The HugeTLB page size chosen for streams' buffers, if any.
#[derive(Debug)]
pub struct HugeTlbConfig {
    cfg_hugetlb: Option<HugePageChoice>,
}

/// What setting `tlb_choice` on a configuration holding `choice` gives,
/// and the choice held afterwards.
pub open spec fn set_outcome(choice: Option<HugePageChoice>, tlb_choice: HugePageChoice) -> (
    Result<(), YaoiError>,
    Option<HugePageChoice>,
) {
    match choice {
        None => (Ok(()), Some(tlb_choice)),
        Some(_) => (Err(YaoiError::HugeTlbAlreadySet), choice),
    }
}

impl HugeTlbConfig {
    /// The page size chosen, if any.
    pub closed spec fn choice(&self) -> Option<HugePageChoice> {
        self.cfg_hugetlb
    }

    /// No page size chosen.
    pub fn new() -> (r: Self)
        ensures
            r.choice() is None,
    {
        HugeTlbConfig { cfg_hugetlb: None }
    }

    /// The page size chosen, if any.
    pub fn get(&self) -> (r: Option<HugePageChoice>)
        ensures
            r == self.choice(),
    {
        match &self.cfg_hugetlb {
            Some(c) => Some(*c),
            None => None,
        }
    }

    /// Choose HugeTLB buffers of `tlb_choice` pages; refused once a choice
    /// was made, which then stays.
    pub fn set_hugetlb(&mut self, tlb_choice: HugePageChoice) -> (r: Result<(), YaoiError>)
        ensures
            (r, final(self).choice()) == set_outcome(old(self).choice(), tlb_choice),
    {
        match self.cfg_hugetlb {
            None => {
                self.cfg_hugetlb = Some(tlb_choice);
                Ok(())
            },
            _ => Err(YaoiError::HugeTlbAlreadySet),
        }
    }
}

/// Setting the HugeTLB choice twice keeps the first choice and refuses the
/// second.
pub proof fn law_hugetlb_set_once(a: HugePageChoice, b: HugePageChoice)
    ensures
        set_outcome(None, a) == (Ok::<(), YaoiError>(()), Some(a)),
        set_outcome(set_outcome(None, a).1, b) == (
            Err::<(), YaoiError>(YaoiError::HugeTlbAlreadySet),
            Some(a),
        ),
{
}

} // verus!
