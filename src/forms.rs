//! Records that the web layer receives from forms.
use vstd::prelude::*;

verus! {

#[derive(Clone, Debug)]
pub struct EditFilterForm {
    pub name: String,
    pub prompt: String,
    pub value: String,
}

#[derive(Debug)]
pub struct FilterNameText {
    pub name: String,
}

} // verus!
