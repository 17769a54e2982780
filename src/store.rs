//! Bringing a stored document back: a missing, unreadable or inconsistent
//! store gives the empty document.

use vstd::prelude::*;
use crate::document::{recipes_distinct, DocModel, Document, ItemModel, RecipeModel};
use crate::text::same_text;

verus! {

impl Default for Document {
    /// The empty document.
    fn default() -> (r: Self)
        ensures
            r@ == DocModel::empty(),
    {
        let r = Document {
            items: Vec::new(),
            recipes: Vec::new(),
            active_message: None,
            current_recipe: None,
        };
        assert(r@.items =~= Seq::<ItemModel>::empty());
        assert(r@.recipes =~= Seq::<RecipeModel>::empty());
        r
    }
}

impl Document {
    /// Whether no two recipes share a name.
    pub fn recipes_unique(&self) -> (r: bool)
        ensures
            r == self@.wf(),
    {
        let ghost rs = self@.recipes;
        let n = self.recipes.len();
        let mut i: usize = 0;
        while i < n
            invariant
                rs == self@.recipes,
                n == rs.len(),
                i <= n,
                forall|a: int, b: int| 0 <= a < i && a < b < n ==> #[trigger] rs[a].name != #[trigger] rs[b].name,
            decreases n - i,
        {
            let mut j: usize = i + 1;
            while j < n
                invariant
                    rs == self@.recipes,
                    n == rs.len(),
                    i < n,
                    i < j <= n,
                    forall|a: int, b: int| 0 <= a < i && a < b < n ==> #[trigger] rs[a].name != #[trigger] rs[b].name,
                    forall|b: int| i < b < j ==> rs[i as int].name != #[trigger] rs[b].name,
                decreases n - j,
            {
                if same_text(self.recipes[i].name.as_str(), self.recipes[j].name.as_str()) {
                    assert(!recipes_distinct(rs)) by {
                        assert(rs[i as int].name == rs[j as int].name);
                    }
                    return false;
                }
                j = j + 1;
            }
            i = i + 1;
        }
        assert forall|a: int, b: int|
            0 <= a < rs.len() && 0 <= b < rs.len() && a != b implies #[trigger] rs[a].name
            != #[trigger] rs[b].name by {
            if a > b {
                assert(rs[b].name != rs[a].name);
            }
        }
        true
    }

    /// The document to start from, given what was read from the store:
    /// `None` when the store was missing or unreadable. A stored document
    /// whose recipe names repeat is discarded too.
    pub fn restore(loaded: Option<Document>) -> (r: Document)
        ensures
            r@ == match loaded {
                Some(d) => if d@.wf() {
                    d@
                } else {
                    DocModel::empty()
                },
                None => DocModel::empty(),
            },
            r@.wf(),
    {
        match loaded {
            Some(d) => {
                if d.recipes_unique() {
                    d
                } else {
                    Document::default()
                }
            },
            None => Document::default(),
        }
    }
}

}
