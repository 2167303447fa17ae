//! What the narrative panel currently shows.

use vstd::prelude::*;

verus! {

/// Currently displayed narrative from the game master.
#[derive(Debug, Clone)]
pub struct CurrentNarrative {
    pub title: String,
    pub text: String,
    pub atmosphere: Option<String>,
    pub visible: bool,
}

impl Default for CurrentNarrative {
    fn default() -> (n: Self)
        ensures
            n.title@.len() == 0,
            n.text@.len() == 0,
            n.atmosphere is None,
            !n.visible,
    {
        Self { title: String::new(), text: String::new(), atmosphere: None, visible: false }
    }
}

} // verus!
