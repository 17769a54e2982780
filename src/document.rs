//! The persisted document: shopping items, recipes, the message that serves as
//! the chat's screen, and the recipe being dictated.

use vstd::prelude::*;
use crate::text::same_text;

verus! {

/// One entry of the shopping list.
pub struct ShoppingItem {
    pub name: String,
    pub checked: bool,
}

pub struct ItemModel {
    pub name: Seq<char>,
    pub checked: bool,
}

impl View for ShoppingItem {
    type V = ItemModel;

    open spec fn view(&self) -> ItemModel {
        ItemModel { name: self.name@, checked: self.checked }
    }
}

/// A named, ordered list of ingredients.
pub struct Recipe {
    pub name: String,
    pub ingredients: Vec<String>,
}

pub struct RecipeModel {
    pub name: Seq<char>,
    pub ingredients: Seq<Seq<char>>,
}

/// The characters of each string, in order.
pub open spec fn texts(v: Seq<String>) -> Seq<Seq<char>> {
    v.map_values(|s: String| s@)
}

impl View for Recipe {
    type V = RecipeModel;

    open spec fn view(&self) -> RecipeModel {
        RecipeModel { name: self.name@, ingredients: texts(self.ingredients@) }
    }
}

/// A recipe being dictated: no name yet while the name line is awaited.
pub struct RecipeDraft {
    pub name: Option<String>,
    pub ingredients: Vec<String>,
}

pub struct DraftModel {
    pub name: Option<Seq<char>>,
    pub ingredients: Seq<Seq<char>>,
}

impl View for RecipeDraft {
    type V = DraftModel;

    open spec fn view(&self) -> DraftModel {
        DraftModel {
            name: match self.name {
                Some(n) => Some(n@),
                None => None,
            },
            ingredients: texts(self.ingredients@),
        }
    }
}

/// The chat and message that the bot currently uses as its screen.
#[derive(Clone, Copy, PartialEq, Eq, Structural, Debug)]
pub struct MessageRef {
    pub chat_id: i64,
    pub message_id: i32,
}

/// The whole state of the assistant.
pub struct Document {
    pub items: Vec<ShoppingItem>,
    pub recipes: Vec<Recipe>,
    pub active_message: Option<MessageRef>,
    pub current_recipe: Option<RecipeDraft>,
}

pub struct DocModel {
    pub items: Seq<ItemModel>,
    pub recipes: Seq<RecipeModel>,
    pub active_message: Option<MessageRef>,
    pub draft: Option<DraftModel>,
}

impl View for Document {
    type V = DocModel;

    open spec fn view(&self) -> DocModel {
        DocModel {
            items: self.items@.map_values(|i: ShoppingItem| i@),
            recipes: self.recipes@.map_values(|r: Recipe| r@),
            active_message: self.active_message,
            draft: match self.current_recipe {
                Some(d) => Some(d@),
                None => None,
            },
        }
    }
}

impl DocModel {
    /// No items, no recipes, no screen, no draft.
    pub open spec fn empty() -> DocModel {
        DocModel {
            items: Seq::empty(),
            recipes: Seq::empty(),
            active_message: None,
            draft: None,
        }
    }

    /// Recipe names are unique.
    pub open spec fn wf(self) -> bool {
        recipes_distinct(self.recipes)
    }

    pub open spec fn with_items(self, items: Seq<ItemModel>) -> DocModel {
        DocModel { items, ..self }
    }

    pub open spec fn with_recipes(self, recipes: Seq<RecipeModel>) -> DocModel {
        DocModel { recipes, ..self }
    }

    pub open spec fn with_draft(self, draft: Option<DraftModel>) -> DocModel {
        DocModel { draft, ..self }
    }

    pub open spec fn with_active(self, active_message: Option<MessageRef>) -> DocModel {
        DocModel { active_message, ..self }
    }
}

pub open spec fn recipes_distinct(rs: Seq<RecipeModel>) -> bool {
    forall|i: int, j: int|
        0 <= i < rs.len() && 0 <= j < rs.len() && i != j ==> #[trigger] rs[i].name
            != #[trigger] rs[j].name
}

/// Where the first recipe called `name` stands.
pub open spec fn recipe_position(rs: Seq<RecipeModel>, name: Seq<char>) -> Option<int>
    decreases rs.len(),
{
    if rs.len() == 0 {
        None
    } else {
        match recipe_position(rs.drop_last(), name) {
            Some(i) => Some(i),
            None => if rs.last().name == name {
                Some(rs.len() - 1)
            } else {
                None
            },
        }
    }
}

/// An unchecked item of the given name.
pub open spec fn fresh_item(name: Seq<char>) -> ItemModel {
    ItemModel { name, checked: false }
}

/// What adding `s` appends: the ingredients of the recipe called `s`, or
/// else one item called `s`; all unchecked.
pub open spec fn added_items(rs: Seq<RecipeModel>, s: Seq<char>) -> Seq<ItemModel> {
    match recipe_position(rs, s) {
        Some(k) => rs[k].ingredients.map_values(|g: Seq<char>| fresh_item(g)),
        None => seq![fresh_item(s)],
    }
}

/// The items with the check mark of item `i` flipped.
pub open spec fn toggled(items: Seq<ItemModel>, i: int) -> Seq<ItemModel> {
    items.update(i, ItemModel { name: items[i].name, checked: !items[i].checked })
}

/// The unchecked items, in their order.
pub open spec fn unchecked(items: Seq<ItemModel>) -> Seq<ItemModel> {
    items.filter(|it: ItemModel| !it.checked)
}

/// The recipes with `r` stored under its name: replacing the recipe of that
/// name in place, or else appended.
pub open spec fn with_recipe(rs: Seq<RecipeModel>, r: RecipeModel) -> Seq<RecipeModel> {
    match recipe_position(rs, r.name) {
        Some(k) => rs.update(k, r),
        None => rs.push(r),
    }
}

pub proof fn lemma_recipe_position(rs: Seq<RecipeModel>, name: Seq<char>)
    ensures
        match recipe_position(rs, name) {
            Some(k) => 0 <= k < rs.len() && rs[k].name == name && forall|j: int|
                0 <= j < k ==> #[trigger] rs[j].name != name,
            None => forall|j: int| 0 <= j < rs.len() ==> #[trigger] rs[j].name != name,
        },
    decreases rs.len(),
{
    if rs.len() > 0 {
        let p = rs.drop_last();
        lemma_recipe_position(p, name);
        assert(forall|j: int| 0 <= j < p.len() ==> #[trigger] p[j] == rs[j]);
        if recipe_position(p, name) is None {
            assert forall|j: int| 0 <= j < rs.len() - 1 implies #[trigger] rs[j].name != name by {
                assert(p[j] == rs[j]);
            }
            assert(rs.last() == rs[rs.len() - 1]);
        } else {
            let k = recipe_position(p, name)->0;
            assert forall|j: int| 0 <= j < k implies #[trigger] rs[j].name != name by {
                assert(p[j] == rs[j]);
            }
        }
    }
}

proof fn lemma_recipe_position_take(rs: Seq<RecipeModel>, name: Seq<char>, k: int)
    requires
        0 <= k <= rs.len(),
        recipe_position(rs.take(k), name) is Some,
    ensures
        recipe_position(rs, name) == recipe_position(rs.take(k), name),
    decreases rs.len(),
{
    if k < rs.len() {
        assert(rs.drop_last().take(k) =~= rs.take(k));
        lemma_recipe_position_take(rs.drop_last(), name, k);
    } else {
        assert(rs.take(k) =~= rs);
    }
}

impl Document {
    /// Where the first recipe called `name` stands.
    pub fn find_recipe(&self, name: &str) -> (r: Option<usize>)
        ensures
            match r {
                Some(k) => recipe_position(self@.recipes, name@) == Some(k as int),
                None => recipe_position(self@.recipes, name@) is None,
            },
    {
        let ghost rs = self@.recipes;
        let mut i: usize = 0;
        while i < self.recipes.len()
            invariant
                rs == self@.recipes,
                i <= rs.len(),
                recipe_position(rs.take(i as int), name@) is None,
            decreases self.recipes.len() - i,
        {
            assert(rs.take(i + 1).drop_last() =~= rs.take(i as int));
            if same_text(self.recipes[i].name.as_str(), name) {
                proof {
                    lemma_recipe_position_take(rs, name@, i + 1);
                }
                return Some(i);
            }
            i = i + 1;
        }
        assert(rs.take(i as int) =~= rs);
        None
    }

    /// Appends the ingredients of the recipe called `input`, or else an item
    /// called `input`.
    pub fn add_item(&mut self, input: String)
        ensures
            final(self)@ == old(self)@.with_items(
                old(self)@.items + added_items(old(self)@.recipes, input@),
            ),
    {
        let ghost old_items = self@.items;
        proof {
            lemma_recipe_position(self@.recipes, input@);
        }
        match self.find_recipe(input.as_str()) {
            Some(k) => {
                let ghost ings = self@.recipes[k as int].ingredients;
                let ghost added = ings.map_values(|g: Seq<char>| fresh_item(g));
                let n = self.recipes[k].ingredients.len();
                let mut j: usize = 0;
                while j < n
                    invariant
                        k < self.recipes.len(),
                        n == self.recipes[k as int].ingredients.len(),
                        ings == self@.recipes[k as int].ingredients,
                        added == ings.map_values(|g: Seq<char>| fresh_item(g)),
                        j <= n,
                        self@ == old(self)@.with_items(old_items + added.take(j as int)),
                    decreases n - j,
                {
                    let name = self.recipes[k].ingredients[j].clone();
                    self.items.push(ShoppingItem { name, checked: false });
                    assert(old_items + added.take(j + 1) =~= (old_items + added.take(
                        j as int,
                    )).push(fresh_item(ings[j as int])));
                    assert(self@.items =~= old_items + added.take(j + 1));
                    j = j + 1;
                }
                assert(added.take(n as int) =~= added);
            },
            None => {
                self.items.push(ShoppingItem { name: input, checked: false });
                assert(self@.items =~= old_items + added_items(old(self)@.recipes, input@));
            },
        }
    }

    /// Flips the check mark of item `i`.
    pub fn toggle(&mut self, i: usize)
        requires
            i < old(self).items.len(),
        ensures
            final(self)@ == old(self)@.with_items(toggled(old(self)@.items, i as int)),
    {
        let name = self.items[i].name.clone();
        let checked = !self.items[i].checked;
        self.items.set(i, ShoppingItem { name, checked });
        assert(self@.items =~= toggled(old(self)@.items, i as int));
    }

    /// Drops every checked item; the others keep their order.
    pub fn remove_checked(&mut self)
        ensures
            final(self)@ == old(self)@.with_items(unchecked(old(self)@.items)),
    {
        let ghost items = self@.items;
        let mut kept: Vec<ShoppingItem> = Vec::new();
        let mut i: usize = 0;
        while i < self.items.len()
            invariant
                self@ == old(self)@,
                items == self@.items,
                i <= items.len(),
                kept@.map_values(|it: ShoppingItem| it@) == unchecked(items.take(i as int)),
            decreases self.items.len() - i,
        {
            proof {
                assert(items.take(i + 1).drop_last() =~= items.take(i as int));
                reveal(Seq::filter);
            }
            if !self.items[i].checked {
                let name = self.items[i].name.clone();
                kept.push(ShoppingItem { name, checked: false });
                assert(kept@.map_values(|it: ShoppingItem| it@) =~= unchecked(
                    items.take(i as int),
                ).push(items[i as int]));
            }
            i = i + 1;
        }
        assert(items.take(i as int) =~= items);
        self.items = kept;
    }

    /// Stores `r` under its name, replacing a recipe of that name.
    pub fn store_recipe(&mut self, r: Recipe)
        ensures
            final(self)@ == old(self)@.with_recipes(with_recipe(old(self)@.recipes, r@)),
            old(self)@.wf() ==> final(self)@.wf(),
    {
        proof {
            lemma_recipe_position(self@.recipes, r@.name);
        }
        match self.find_recipe(r.name.as_str()) {
            Some(k) => {
                self.recipes.set(k, r);
                assert(self@.recipes =~= with_recipe(old(self)@.recipes, r@));
            },
            None => {
                self.recipes.push(r);
                assert(self@.recipes =~= with_recipe(old(self)@.recipes, r@));
            },
        }
    }
}

}
