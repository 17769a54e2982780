//! What the bot shows: a text with a grid of buttons, each carrying the
//! callback data that a press sends back.

use vstd::prelude::*;
use vstd::string::*;
use crate::document::{Document, DraftModel, ItemModel, RecipeModel, texts};
use crate::text::{bullets, decimal, decimal_string, lemma_bullets_take};

verus! {

pub struct Button {
    pub label: String,
    pub action: String,
}

pub struct ButtonModel {
    pub label: Seq<char>,
    pub action: Seq<char>,
}

impl View for Button {
    type V = ButtonModel;

    open spec fn view(&self) -> ButtonModel {
        ButtonModel { label: self.label@, action: self.action@ }
    }
}

pub open spec fn button(label: Seq<char>, action: Seq<char>) -> ButtonModel {
    ButtonModel { label, action }
}

pub open spec fn row_view(row: Seq<Button>) -> Seq<ButtonModel> {
    row.map_values(|b: Button| b@)
}

pub open spec fn rows_view(rows: Seq<Vec<Button>>) -> Seq<Seq<ButtonModel>> {
    rows.map_values(|r: Vec<Button>| row_view(r@))
}

/// Rows of buttons, top to bottom, each row left to right.
pub struct Keyboard {
    pub rows: Vec<Vec<Button>>,
}

impl View for Keyboard {
    type V = Seq<Seq<ButtonModel>>;

    open spec fn view(&self) -> Seq<Seq<ButtonModel>> {
        rows_view(self.rows@)
    }
}

/// A message's text and its buttons.
pub struct Screen {
    pub text: String,
    pub keyboard: Keyboard,
}

pub struct ScreenModel {
    pub text: Seq<char>,
    pub keyboard: Seq<Seq<ButtonModel>>,
}

impl View for Screen {
    type V = ScreenModel;

    open spec fn view(&self) -> ScreenModel {
        ScreenModel { text: self.text@, keyboard: self.keyboard@ }
    }
}

pub open spec fn screen(text: Seq<char>, keyboard: Seq<Seq<ButtonModel>>) -> ScreenModel {
    ScreenModel { text, keyboard }
}

/// The list's header, then one bulleted line per item.
pub open spec fn list_text(items: Seq<ItemModel>) -> Seq<char> {
    "Einkaufsliste:\n"@ + bullets(items.map_values(|i: ItemModel| i.name))
}

/// `"<name>:"` and one bulleted line per ingredient; empty while no named
/// recipe is being dictated.
pub open spec fn draft_text(draft: Option<DraftModel>) -> Seq<char> {
    match draft {
        Some(d) => match d.name {
            Some(n) => n + ":"@ + bullets(d.ingredients),
            None => Seq::empty(),
        },
        None => Seq::empty(),
    }
}

pub open spec fn item_label(it: ItemModel) -> Seq<char> {
    if it.checked {
        "\u{2764} "@ + it.name
    } else {
        it.name
    }
}

pub open spec fn toggle_action(i: nat) -> Seq<char> {
    "toggle "@ + decimal(i)
}

pub open spec fn add_action(name: Seq<char>) -> Seq<char> {
    "add "@ + name
}

/// One row per item that toggles it, then a row that removes the checked ones.
pub open spec fn list_keyboard(items: Seq<ItemModel>) -> Seq<Seq<ButtonModel>> {
    Seq::new(
        items.len(),
        |i: int| seq![button(item_label(items[i]), toggle_action(i as nat))],
    ).push(seq![button("\u{1f49a}"@, "remove_done"@)])
}

/// One row per recipe that adds it, then a row back to the main list.
pub open spec fn recipe_keyboard(rs: Seq<RecipeModel>) -> Seq<Seq<ButtonModel>> {
    Seq::new(rs.len(), |i: int| seq![button(rs[i].name, add_action(rs[i].name))]).push(
        seq![button("\u{1f49a}"@, "return_to_main_list"@)],
    )
}

pub open spec fn main_menu() -> Seq<Seq<ButtonModel>> {
    seq![
        seq![button("\u{1f6d2}"@, "start_remove"@), button("\u{1f4dd}\u{1f6d2}"@, "list_recipes"@)],
        seq![button("\u{1f4dd}\u{2795}"@, "start_recipe"@)],
    ]
}

pub open spec fn capture_keyboard() -> Seq<Seq<ButtonModel>> {
    seq![seq![button("\u{1f49a}"@, "recipe_done"@)]]
}

fn make_button(label: &str, action: &str) -> (r: Button)
    ensures
        r@ == button(label@, action@),
{
    Button { label: String::from_str(label), action: String::from_str(action) }
}

fn single_row(b: Button) -> (r: Vec<Button>)
    ensures
        row_view(r@) == seq![b@],
{
    let mut r: Vec<Button> = Vec::new();
    r.push(b);
    assert(row_view(r@) =~= seq![b@]);
    r
}

proof fn lemma_rows_push(rows: Seq<Vec<Button>>, row: Vec<Button>)
    ensures
        rows_view(rows.push(row)) == rows_view(rows).push(row_view(row@)),
{
    assert(rows_view(rows.push(row)) =~= rows_view(rows).push(row_view(row@)));
}

/// The main menu: remove and recipes on the first row, a new recipe below.
pub fn main_menu_keyboard() -> (r: Keyboard)
    ensures
        r@ == main_menu(),
{
    let mut first: Vec<Button> = Vec::new();
    first.push(make_button("\u{1f6d2}", "start_remove"));
    first.push(make_button("\u{1f4dd}\u{1f6d2}", "list_recipes"));
    assert(row_view(first@) =~= main_menu()[0]);
    let second = single_row(make_button("\u{1f4dd}\u{2795}", "start_recipe"));
    let mut rows: Vec<Vec<Button>> = Vec::new();
    rows.push(first);
    rows.push(second);
    assert(rows_view(rows@) =~= main_menu());
    Keyboard { rows }
}

/// The single button that ends the dictation of a recipe.
pub fn capture_keyboard_layout() -> (r: Keyboard)
    ensures
        r@ == capture_keyboard(),
{
    let mut rows: Vec<Vec<Button>> = Vec::new();
    rows.push(single_row(make_button("\u{1f49a}", "recipe_done")));
    assert(rows_view(rows@) =~= capture_keyboard());
    Keyboard { rows }
}

impl Document {
    /// The shopping list as text.
    pub fn shopping_list_text(&self) -> (r: String)
        ensures
            r@ == list_text(self@.items),
    {
        let ghost names = self@.items.map_values(|i: ItemModel| i.name);
        let mut s = String::from_str("Einkaufsliste:\n");
        let mut i: usize = 0;
        while i < self.items.len()
            invariant
                names == self@.items.map_values(|i: ItemModel| i.name),
                i <= names.len(),
                s@ == "Einkaufsliste:\n"@ + bullets(names.take(i as int)),
            decreases self.items.len() - i,
        {
            proof {
                lemma_bullets_take(names, i as int);
            }
            s.append("\n - ");
            s.append(self.items[i].name.as_str());
            assert(s@ =~= "Einkaufsliste:\n"@ + bullets(names.take(i + 1)));
            i = i + 1;
        }
        assert(names.take(i as int) =~= names);
        s
    }

    /// The recipe being dictated as text; empty while it has no name.
    pub fn recipe_draft_text(&self) -> (r: String)
        ensures
            r@ == draft_text(self@.draft),
    {
        match &self.current_recipe {
            Some(d) => match &d.name {
                Some(n) => {
                    let ghost ings = texts(d.ingredients@);
                    let mut s = n.clone();
                    s.append(":");
                    let mut i: usize = 0;
                    while i < d.ingredients.len()
                        invariant
                            ings == texts(d.ingredients@),
                            i <= ings.len(),
                            s@ == n@ + ":"@ + bullets(ings.take(i as int)),
                        decreases d.ingredients.len() - i,
                    {
                        proof {
                            lemma_bullets_take(ings, i as int);
                        }
                        s.append("\n - ");
                        s.append(d.ingredients[i].as_str());
                        assert(s@ =~= n@ + ":"@ + bullets(ings.take(i + 1)));
                        i = i + 1;
                    }
                    assert(ings.take(i as int) =~= ings);
                    s
                },
                None => String::new(),
            },
            None => String::new(),
        }
    }

    /// One toggle button per item, then the button that removes the checked ones.
    pub fn list_keyboard(&self) -> (r: Keyboard)
        ensures
            r@ == list_keyboard(self@.items),
    {
        let ghost items = self@.items;
        let ghost item_rows = Seq::new(
            items.len(),
            |i: int| seq![button(item_label(items[i]), toggle_action(i as nat))],
        );
        let mut rows: Vec<Vec<Button>> = Vec::new();
        let mut i: usize = 0;
        while i < self.items.len()
            invariant
                items == self@.items,
                item_rows == Seq::new(
                    items.len(),
                    |i: int| seq![button(item_label(items[i]), toggle_action(i as nat))],
                ),
                i <= items.len(),
                rows_view(rows@) == item_rows.take(i as int),
            decreases self.items.len() - i,
        {
            let mut label = if self.items[i].checked {
                String::from_str("\u{2764} ")
            } else {
                String::new()
            };
            label.append(self.items[i].name.as_str());
            let mut action = String::from_str("toggle ");
            let number = decimal_string(i);
            action.append(number.as_str());
            let row = single_row(Button { label, action });
            proof {
                lemma_rows_push(rows@, row);
            }
            rows.push(row);
            assert(rows_view(rows@) =~= item_rows.take(i + 1));
            i = i + 1;
        }
        let last = single_row(make_button("\u{1f49a}", "remove_done"));
        proof {
            lemma_rows_push(rows@, last);
        }
        rows.push(last);
        assert(rows_view(rows@) =~= list_keyboard(items));
        Keyboard { rows }
    }

    /// One button per recipe that adds it, then the button back to the list.
    pub fn recipe_keyboard(&self) -> (r: Keyboard)
        ensures
            r@ == recipe_keyboard(self@.recipes),
    {
        let ghost rs = self@.recipes;
        let ghost recipe_rows = Seq::new(
            rs.len(),
            |i: int| seq![button(rs[i].name, add_action(rs[i].name))],
        );
        let mut rows: Vec<Vec<Button>> = Vec::new();
        let mut i: usize = 0;
        while i < self.recipes.len()
            invariant
                rs == self@.recipes,
                recipe_rows == Seq::new(
                    rs.len(),
                    |i: int| seq![button(rs[i].name, add_action(rs[i].name))],
                ),
                i <= rs.len(),
                rows_view(rows@) == recipe_rows.take(i as int),
            decreases self.recipes.len() - i,
        {
            let label = self.recipes[i].name.clone();
            let mut action = String::from_str("add ");
            action.append(self.recipes[i].name.as_str());
            let row = single_row(Button { label, action });
            proof {
                lemma_rows_push(rows@, row);
            }
            rows.push(row);
            assert(rows_view(rows@) =~= recipe_rows.take(i + 1));
            i = i + 1;
        }
        let last = single_row(make_button("\u{1f49a}", "return_to_main_list"));
        proof {
            lemma_rows_push(rows@, last);
        }
        rows.push(last);
        assert(rows_view(rows@) =~= recipe_keyboard(rs));
        Keyboard { rows }
    }
}

}
