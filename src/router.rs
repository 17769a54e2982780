//! The conversation's rules: how a text message or a button press changes the
//! document, and which screen is shown next.

use vstd::prelude::*;
use vstd::string::*;
use crate::document::{
    added_items, toggled, unchecked, with_recipe, DocModel, Document, DraftModel, Recipe,
    RecipeDraft, RecipeModel, texts,
};
use crate::screen::{
    capture_keyboard, capture_keyboard_layout, draft_text, list_keyboard, list_text,
    main_menu, main_menu_keyboard, recipe_keyboard, screen, Screen, ScreenModel,
};
use crate::text::{has_prefix, is_numeral, numeral_value, parse_number, same_text, starts_with};

verus! {

/// What a button press asks for.
pub enum Action {
    StartRecipe,
    StartRemove,
    RecipeDone,
    Toggle(usize),
    RemoveDone,
    ListRecipes,
    Add(String),
    ReturnToMainList,
    Unknown,
}

pub enum ActionModel {
    StartRecipe,
    StartRemove,
    RecipeDone,
    Toggle(usize),
    RemoveDone,
    ListRecipes,
    Add(Seq<char>),
    ReturnToMainList,
    Unknown,
}

impl View for Action {
    type V = ActionModel;

    open spec fn view(&self) -> ActionModel {
        match self {
            Action::StartRecipe => ActionModel::StartRecipe,
            Action::StartRemove => ActionModel::StartRemove,
            Action::RecipeDone => ActionModel::RecipeDone,
            Action::Toggle(i) => ActionModel::Toggle(*i),
            Action::RemoveDone => ActionModel::RemoveDone,
            Action::ListRecipes => ActionModel::ListRecipes,
            Action::Add(s) => ActionModel::Add(s@),
            Action::ReturnToMainList => ActionModel::ReturnToMainList,
            Action::Unknown => ActionModel::Unknown,
        }
    }
}

/// Why a button press was abandoned.
#[derive(Clone, Copy, PartialEq, Eq, Structural, Debug)]
pub enum EventError {
    /// `toggle` without a number that fits in `usize`.
    BadIndex,
    /// `toggle` of an item that does not exist.
    IndexOutOfRange,
}

/// The action that a button's callback data names: a bare tag, `toggle <i>`
/// or `add <name>`.
pub open spec fn decode(data: Seq<char>) -> Result<ActionModel, EventError> {
    if data == "start_recipe"@ {
        Ok(ActionModel::StartRecipe)
    } else if data == "start_remove"@ {
        Ok(ActionModel::StartRemove)
    } else if data == "recipe_done"@ {
        Ok(ActionModel::RecipeDone)
    } else if data == "remove_done"@ {
        Ok(ActionModel::RemoveDone)
    } else if data == "list_recipes"@ {
        Ok(ActionModel::ListRecipes)
    } else if data == "return_to_main_list"@ {
        Ok(ActionModel::ReturnToMainList)
    } else if data == "toggle"@ {
        Err(EventError::BadIndex)
    } else if has_prefix(data, "toggle "@) {
        let p = data.skip("toggle "@.len() as int);
        if is_numeral(p) && numeral_value(p) <= usize::MAX {
            Ok(ActionModel::Toggle(numeral_value(p) as usize))
        } else {
            Err(EventError::BadIndex)
        }
    } else if has_prefix(data, "add "@) {
        Ok(ActionModel::Add(data.skip("add "@.len() as int)))
    } else {
        Ok(ActionModel::Unknown)
    }
}

/// The shopping list with the main menu.
pub open spec fn summary_screen(d: DocModel) -> ScreenModel {
    screen(list_text(d.items), main_menu())
}

/// The recipes after the draft, if it has a name, is stored.
pub open spec fn committed(d: DocModel) -> Seq<RecipeModel> {
    match d.draft {
        Some(dr) => match dr.name {
            Some(n) => with_recipe(d.recipes, RecipeModel { name: n, ingredients: dr.ingredients }),
            None => d.recipes,
        },
        None => d.recipes,
    }
}

/// A press that is abandoned: a toggle of a missing item.
pub open spec fn action_fails(d: DocModel, a: ActionModel) -> bool {
    match a {
        ActionModel::Toggle(i) => i >= d.items.len(),
        _ => false,
    }
}

/// The document after action `a`.
pub open spec fn action_effect(d: DocModel, a: ActionModel) -> DocModel {
    match a {
        ActionModel::StartRecipe => d.with_draft(
            Some(DraftModel { name: None, ingredients: Seq::empty() }),
        ),
        ActionModel::RecipeDone => d.with_recipes(committed(d)).with_draft(None),
        ActionModel::Toggle(i) => d.with_items(toggled(d.items, i as int)),
        ActionModel::RemoveDone => d.with_items(unchecked(d.items)),
        ActionModel::Add(s) => d.with_items(d.items + added_items(d.recipes, s)),
        _ => d,
    }
}

/// The screen shown after action `a`, given the document `d` it left.
pub open spec fn action_screen(d: DocModel, a: ActionModel) -> Option<ScreenModel> {
    match a {
        ActionModel::StartRecipe => Some(screen("Neues Rezept:"@, capture_keyboard())),
        ActionModel::StartRemove => Some(screen("Einkaufsliste:"@, list_keyboard(d.items))),
        ActionModel::RecipeDone => Some(screen("\u{1f44d}"@, main_menu())),
        ActionModel::Toggle(_) => Some(screen("Einkaufsliste:"@, list_keyboard(d.items))),
        ActionModel::ListRecipes => Some(
            screen("Click the recipe to add:"@, recipe_keyboard(d.recipes)),
        ),
        ActionModel::Unknown => None,
        _ => Some(summary_screen(d)),
    }
}

pub open spec fn shown(s: Option<Screen>) -> Option<ScreenModel> {
    match s {
        Some(s) => Some(s@),
        None => None,
    }
}

/// A text that is a note to oneself, not an item.
pub open spec fn is_comment(t: Seq<char>) -> bool {
    has_prefix(t, "#"@)
}

/// A text event that changes nothing and shows nothing.
pub open spec fn text_ignored(d: DocModel, t: Seq<char>) -> bool {
    d.draft is None && is_comment(t)
}

/// The document after the text `t`: the draft's name, else its next
/// ingredient, else an item to add.
pub open spec fn text_effect(d: DocModel, t: Seq<char>) -> DocModel {
    match d.draft {
        Some(dr) => match dr.name {
            None => d.with_draft(Some(DraftModel { name: Some(t), ingredients: dr.ingredients })),
            Some(n) => d.with_draft(
                Some(DraftModel { name: Some(n), ingredients: dr.ingredients.push(t) }),
            ),
        },
        None => if is_comment(t) {
            d
        } else {
            d.with_items(d.items + added_items(d.recipes, t))
        },
    }
}

/// The screen after a text that was not ignored, given the document it left.
pub open spec fn text_screen(d: DocModel) -> ScreenModel {
    match d.draft {
        Some(_) => screen(draft_text(d.draft), capture_keyboard()),
        None => summary_screen(d),
    }
}

fn text_of(s: &str) -> (r: String)
    ensures
        r@ == s@,
{
    String::from_str(s)
}

/// Reads a button's callback data.
pub fn decode_action(data: &str) -> (r: Result<Action, EventError>)
    ensures
        match r {
            Ok(a) => decode(data@) == Ok::<ActionModel, EventError>(a@),
            Err(e) => decode(data@) == Err::<ActionModel, EventError>(e),
        },
{
    if same_text(data, "start_recipe") {
        Ok(Action::StartRecipe)
    } else if same_text(data, "start_remove") {
        Ok(Action::StartRemove)
    } else if same_text(data, "recipe_done") {
        Ok(Action::RecipeDone)
    } else if same_text(data, "remove_done") {
        Ok(Action::RemoveDone)
    } else if same_text(data, "list_recipes") {
        Ok(Action::ListRecipes)
    } else if same_text(data, "return_to_main_list") {
        Ok(Action::ReturnToMainList)
    } else if same_text(data, "toggle") {
        Err(EventError::BadIndex)
    } else if starts_with(data, "toggle ") {
        let from = "toggle ".unicode_len();
        let rest = data.substring_char(from, data.unicode_len());
        assert(rest@ =~= data@.skip("toggle "@.len() as int));
        match parse_number(rest) {
            Some(i) => Ok(Action::Toggle(i)),
            None => Err(EventError::BadIndex),
        }
    } else if starts_with(data, "add ") {
        let from = "add ".unicode_len();
        let rest = data.substring_char(from, data.unicode_len());
        assert(rest@ =~= data@.skip("add "@.len() as int));
        Ok(Action::Add(text_of(rest)))
    } else {
        Ok(Action::Unknown)
    }
}

fn summary(doc: &Document) -> (r: Screen)
    ensures
        r@ == summary_screen(doc@),
{
    Screen { text: doc.shopping_list_text(), keyboard: main_menu_keyboard() }
}

impl Document {
    /// Stores the draft under its name, if it has one, and ends the dictation.
    pub fn commit_draft(&mut self)
        ensures
            final(self)@ == old(self)@.with_recipes(committed(old(self)@)).with_draft(None),
            old(self)@.wf() ==> final(self)@.wf(),
    {
        let draft = self.current_recipe.take();
        match draft {
            Some(d) => match d.name {
                Some(name) => {
                    let r = Recipe { name, ingredients: d.ingredients };
                    self.store_recipe(r);
                },
                None => {},
            },
            None => {},
        }
    }

    /// Carries out a button's action; on a toggle of a missing item, changes
    /// nothing and fails.
    pub fn apply_action(&mut self, action: Action) -> (r: Result<Option<Screen>, EventError>)
        ensures
            action_fails(old(self)@, action@) ==> r == Err::<Option<Screen>, EventError>(
                EventError::IndexOutOfRange,
            ) && final(self)@ == old(self)@,
            !action_fails(old(self)@, action@) ==> r is Ok && final(self)@ == action_effect(
                old(self)@,
                action@,
            ) && shown(r->Ok_0) == action_screen(final(self)@, action@),
            old(self)@.wf() ==> final(self)@.wf(),
    {
        match action {
            Action::StartRecipe => {
                let ingredients: Vec<String> = Vec::new();
                assert(texts(ingredients@) =~= Seq::<Seq<char>>::empty());
                self.current_recipe = Some(RecipeDraft { name: None, ingredients });
                Ok(Some(Screen { text: text_of("Neues Rezept:"), keyboard: capture_keyboard_layout() }))
            },
            Action::StartRemove => {
                Ok(Some(Screen { text: text_of("Einkaufsliste:"), keyboard: self.list_keyboard() }))
            },
            Action::RecipeDone => {
                self.commit_draft();
                Ok(Some(Screen { text: text_of("\u{1f44d}"), keyboard: main_menu_keyboard() }))
            },
            Action::Toggle(i) => {
                if i >= self.items.len() {
                    return Err(EventError::IndexOutOfRange);
                }
                self.toggle(i);
                Ok(Some(Screen { text: text_of("Einkaufsliste:"), keyboard: self.list_keyboard() }))
            },
            Action::RemoveDone => {
                self.remove_checked();
                Ok(Some(summary(self)))
            },
            Action::ListRecipes => {
                Ok(
                    Some(
                        Screen {
                            text: text_of("Click the recipe to add:"),
                            keyboard: self.recipe_keyboard(),
                        },
                    ),
                )
            },
            Action::Add(name) => {
                self.add_item(name);
                Ok(Some(summary(self)))
            },
            Action::ReturnToMainList => Ok(Some(summary(self))),
            Action::Unknown => Ok(None),
        }
    }

    /// Handles a button press: reads its callback data and carries out the
    /// action. An error leaves the document as it was.
    pub fn handle_callback(&mut self, data: &str) -> (r: Result<Option<Screen>, EventError>)
        ensures
            match decode(data@) {
                Err(e) => r == Err::<Option<Screen>, EventError>(e) && final(self)@ == old(self)@,
                Ok(a) => if action_fails(old(self)@, a) {
                    r == Err::<Option<Screen>, EventError>(EventError::IndexOutOfRange)
                        && final(self)@ == old(self)@
                } else {
                    r is Ok && final(self)@ == action_effect(old(self)@, a) && shown(r->Ok_0)
                        == action_screen(final(self)@, a)
                },
            },
            old(self)@.wf() ==> final(self)@.wf(),
    {
        match decode_action(data) {
            Ok(a) => self.apply_action(a),
            Err(e) => Err(e),
        }
    }

    /// Handles a text message: names the recipe being dictated, adds an
    /// ingredient to it, or adds items to the list. A comment outside a
    /// dictation is ignored: `None`, and nothing changes.
    pub fn handle_text(&mut self, text: String) -> (r: Option<Screen>)
        ensures
            final(self)@ == text_effect(old(self)@, text@),
            r is None <==> text_ignored(old(self)@, text@),
            r is Some ==> r->0@ == text_screen(final(self)@),
            old(self)@.wf() ==> final(self)@.wf(),
    {
        let draft = self.current_recipe.take();
        match draft {
            Some(mut d) => {
                match d.name {
                    Some(n) => {
                        d.name = Some(n);
                        d.ingredients.push(text);
                        assert(texts(d.ingredients@) =~= old(self)@.draft->0.ingredients.push(
                            text@,
                        ));
                    },
                    None => {
                        d.name = Some(text);
                    },
                }
                self.current_recipe = Some(d);
                assert(self@ =~= text_effect(old(self)@, text@));
                let body = self.recipe_draft_text();
                Some(Screen { text: body, keyboard: capture_keyboard_layout() })
            },
            None => {
                if starts_with(text.as_str(), "#") {
                    return None;
                }
                self.add_item(text);
                Some(summary(self))
            },
        }
    }
}

}
