use shopping_list_bot::display::{DisplayStep, EditOutcome};
use shopping_list_bot::document::{Document, MessageRef, Recipe, RecipeDraft, ShoppingItem};
use shopping_list_bot::router::{decode_action, Action, EventError};
use shopping_list_bot::screen::{Keyboard, Screen};
use shopping_list_bot::text::{decimal_string, parse_number, same_text, starts_with};

fn item(name: &str, checked: bool) -> ShoppingItem {
    ShoppingItem { name: name.to_string(), checked }
}

fn items_of(doc: &Document) -> Vec<(String, bool)> {
    doc.items.iter().map(|i| (i.name.clone(), i.checked)).collect()
}

fn pairs(v: &[(&str, bool)]) -> Vec<(String, bool)> {
    v.iter().map(|(n, c)| (n.to_string(), *c)).collect()
}

fn recipes_of(doc: &Document) -> Vec<(String, Vec<String>)> {
    doc.recipes.iter().map(|r| (r.name.clone(), r.ingredients.clone())).collect()
}

fn layout(k: &Keyboard) -> Vec<Vec<(String, String)>> {
    k.rows
        .iter()
        .map(|row| row.iter().map(|b| (b.label.clone(), b.action.clone())).collect())
        .collect()
}

fn text_of(s: &Option<Screen>) -> String {
    s.as_ref().expect("a screen").text.clone()
}

fn callback(doc: &mut Document, data: &str) -> Option<Screen> {
    doc.handle_callback(data).expect("the press is handled")
}

#[test]
fn toggle_twice_restores_items() {
    let mut doc = Document::default();
    doc.items = vec![item("Milk", false), item("Eggs", true), item("Bread", false)];
    callback(&mut doc, "toggle 1");
    assert_eq!(items_of(&doc), pairs(&[("Milk", false), ("Eggs", false), ("Bread", false)]));
    callback(&mut doc, "toggle 1");
    assert_eq!(items_of(&doc), pairs(&[("Milk", false), ("Eggs", true), ("Bread", false)]));
}

#[test]
fn toggle_shows_the_list_buttons() {
    let mut doc = Document::default();
    doc.items = vec![item("Milk", false), item("Eggs", false)];
    let s = callback(&mut doc, "toggle 0").expect("a screen");
    assert_eq!(s.text, "Einkaufsliste:");
    assert_eq!(
        layout(&s.keyboard),
        vec![
            vec![("\u{2764} Milk".to_string(), "toggle 0".to_string())],
            vec![("Eggs".to_string(), "toggle 1".to_string())],
            vec![("\u{1f49a}".to_string(), "remove_done".to_string())],
        ]
    );
}

#[test]
fn remove_done_keeps_unchecked_in_order() {
    let mut doc = Document::default();
    doc.items = vec![
        item("A", true),
        item("B", false),
        item("C", true),
        item("D", false),
        item("E", true),
    ];
    let s = callback(&mut doc, "remove_done");
    assert_eq!(items_of(&doc), pairs(&[("B", false), ("D", false)]));
    assert_eq!(text_of(&s), "Einkaufsliste:\n\n - B\n - D");
}

#[test]
fn remove_done_with_all_checked_empties_list() {
    let mut doc = Document::default();
    doc.items = vec![item("A", true), item("B", true)];
    callback(&mut doc, "remove_done");
    assert!(doc.items.is_empty());
}

#[test]
fn recipe_round_trip_pasta() {
    let mut doc = Document::default();
    doc.items = vec![item("Milk", false)];
    let s = callback(&mut doc, "start_recipe");
    assert_eq!(text_of(&s), "Neues Rezept:");
    let s = doc.handle_text("Pasta".to_string());
    assert_eq!(text_of(&s), "Pasta:");
    doc.handle_text("Noodles".to_string());
    let s = doc.handle_text("Sauce".to_string());
    assert_eq!(text_of(&s), "Pasta:\n - Noodles\n - Sauce");
    let s = callback(&mut doc, "recipe_done");
    assert_eq!(text_of(&s), "\u{1f44d}");
    assert!(doc.current_recipe.is_none());
    assert_eq!(
        recipes_of(&doc),
        vec![("Pasta".to_string(), vec!["Noodles".to_string(), "Sauce".to_string()])]
    );
    callback(&mut doc, "add Pasta");
    assert_eq!(
        items_of(&doc),
        pairs(&[("Milk", false), ("Noodles", false), ("Sauce", false)])
    );
}

#[test]
fn recipe_done_replaces_recipe_of_same_name() {
    let mut doc = Document::default();
    doc.recipes = vec![
        Recipe { name: "Soup".to_string(), ingredients: vec!["Water".to_string()] },
        Recipe { name: "Pasta".to_string(), ingredients: vec!["Old".to_string()] },
    ];
    callback(&mut doc, "start_recipe");
    doc.handle_text("Soup".to_string());
    doc.handle_text("Leek".to_string());
    callback(&mut doc, "recipe_done");
    assert_eq!(
        recipes_of(&doc),
        vec![
            ("Soup".to_string(), vec!["Leek".to_string()]),
            ("Pasta".to_string(), vec!["Old".to_string()]),
        ]
    );
}

#[test]
fn recipe_done_without_name_stores_nothing() {
    let mut doc = Document::default();
    callback(&mut doc, "start_recipe");
    callback(&mut doc, "recipe_done");
    assert!(doc.recipes.is_empty());
    assert!(doc.current_recipe.is_none());
}

#[test]
fn comment_text_is_ignored() {
    let mut doc = Document::default();
    doc.items = vec![item("Milk", false)];
    doc.active_message = Some(MessageRef { chat_id: 5, message_id: 9 });
    let s = doc.handle_text("#note".to_string());
    assert!(s.is_none());
    assert_eq!(items_of(&doc), pairs(&[("Milk", false)]));
    assert_eq!(doc.active_message, Some(MessageRef { chat_id: 5, message_id: 9 }));
    assert!(doc.current_recipe.is_none());
}

#[test]
fn comment_text_during_dictation_is_an_ingredient() {
    let mut doc = Document::default();
    doc.current_recipe = Some(RecipeDraft { name: Some("Tea".to_string()), ingredients: vec![] });
    let s = doc.handle_text("#leaves".to_string());
    assert_eq!(text_of(&s), "Tea:\n - #leaves");
}

#[test]
fn unknown_recipe_adds_literal_item() {
    let mut doc = Document::default();
    doc.recipes = vec![Recipe { name: "Pasta".to_string(), ingredients: vec!["Noodles".to_string()] }];
    let s = callback(&mut doc, "add Unknown");
    assert_eq!(items_of(&doc), pairs(&[("Unknown", false)]));
    let s = s.expect("a screen");
    assert_eq!(s.text, "Einkaufsliste:\n\n - Unknown");
    assert_eq!(layout(&s.keyboard).len(), 2);
}

#[test]
fn plain_text_adds_item_and_shows_main_menu() {
    let mut doc = Document::default();
    let s = doc.handle_text("Cheese".to_string()).expect("a screen");
    assert_eq!(items_of(&doc), pairs(&[("Cheese", false)]));
    assert_eq!(s.text, "Einkaufsliste:\n\n - Cheese");
    assert_eq!(
        layout(&s.keyboard),
        vec![
            vec![
                ("\u{1f6d2}".to_string(), "start_remove".to_string()),
                ("\u{1f4dd}\u{1f6d2}".to_string(), "list_recipes".to_string()),
            ],
            vec![("\u{1f4dd}\u{2795}".to_string(), "start_recipe".to_string())],
        ]
    );
}

#[test]
fn text_naming_a_recipe_adds_its_ingredients() {
    let mut doc = Document::default();
    doc.recipes = vec![Recipe {
        name: "Salad".to_string(),
        ingredients: vec!["Lettuce".to_string(), "Tomato".to_string()],
    }];
    doc.handle_text("Salad".to_string());
    assert_eq!(items_of(&doc), pairs(&[("Lettuce", false), ("Tomato", false)]));
}

#[test]
fn list_recipes_shows_picker() {
    let mut doc = Document::default();
    doc.recipes = vec![
        Recipe { name: "Pasta".to_string(), ingredients: vec![] },
        Recipe { name: "Käse Spätzle".to_string(), ingredients: vec![] },
    ];
    let s = callback(&mut doc, "list_recipes").expect("a screen");
    assert_eq!(s.text, "Click the recipe to add:");
    assert_eq!(
        layout(&s.keyboard),
        vec![
            vec![("Pasta".to_string(), "add Pasta".to_string())],
            vec![("Käse Spätzle".to_string(), "add Käse Spätzle".to_string())],
            vec![("\u{1f49a}".to_string(), "return_to_main_list".to_string())],
        ]
    );
}

#[test]
fn add_non_ascii_recipe_by_name() {
    let mut doc = Document::default();
    doc.recipes = vec![Recipe {
        name: "Käse Spätzle".to_string(),
        ingredients: vec!["Käse".to_string()],
    }];
    callback(&mut doc, "add Käse Spätzle");
    assert_eq!(items_of(&doc), pairs(&[("Käse", false)]));
}

#[test]
fn start_remove_and_return_change_nothing() {
    let mut doc = Document::default();
    doc.items = vec![item("Milk", true)];
    let s = callback(&mut doc, "start_remove");
    assert_eq!(text_of(&s), "Einkaufsliste:");
    let s = callback(&mut doc, "return_to_main_list");
    assert_eq!(text_of(&s), "Einkaufsliste:\n\n - Milk");
    assert_eq!(items_of(&doc), pairs(&[("Milk", true)]));
}

#[test]
fn toggle_out_of_range_is_an_error() {
    let mut doc = Document::default();
    doc.items = vec![item("Milk", false)];
    assert!(matches!(doc.handle_callback("toggle 1"), Err(EventError::IndexOutOfRange)));
    assert_eq!(items_of(&doc), pairs(&[("Milk", false)]));
}

#[test]
fn toggle_without_number_is_an_error() {
    let mut doc = Document::default();
    doc.items = vec![item("Milk", false)];
    assert!(matches!(doc.handle_callback("toggle"), Err(EventError::BadIndex)));
    assert!(matches!(doc.handle_callback("toggle x"), Err(EventError::BadIndex)));
    assert!(matches!(
        doc.handle_callback("toggle 99999999999999999999999"),
        Err(EventError::BadIndex)
    ));
    assert_eq!(items_of(&doc), pairs(&[("Milk", false)]));
}

#[test]
fn unknown_callback_shows_nothing() {
    let mut doc = Document::default();
    doc.items = vec![item("Milk", false)];
    assert!(matches!(doc.handle_callback("dance"), Ok(None)));
    assert_eq!(items_of(&doc), pairs(&[("Milk", false)]));
}

#[test]
fn decode_reads_every_tag() {
    assert!(matches!(decode_action("start_recipe"), Ok(Action::StartRecipe)));
    assert!(matches!(decode_action("start_remove"), Ok(Action::StartRemove)));
    assert!(matches!(decode_action("recipe_done"), Ok(Action::RecipeDone)));
    assert!(matches!(decode_action("remove_done"), Ok(Action::RemoveDone)));
    assert!(matches!(decode_action("list_recipes"), Ok(Action::ListRecipes)));
    assert!(matches!(decode_action("return_to_main_list"), Ok(Action::ReturnToMainList)));
    assert!(matches!(decode_action("toggle 12"), Ok(Action::Toggle(12))));
    match decode_action("add Tomato Sauce") {
        Ok(Action::Add(name)) => assert_eq!(name, "Tomato Sauce"),
        _ => panic!("expected an add"),
    }
    assert!(matches!(decode_action("start_recipes"), Ok(Action::Unknown)));
}

#[test]
fn reconcile_twice_keeps_the_screen() {
    let mut doc = Document::default();
    assert_eq!(doc.display_step(), DisplayStep::Send);
    let m = MessageRef { chat_id: 7, message_id: 41 };
    doc.record_sent(m);
    assert_eq!(doc.display_step(), DisplayStep::Edit(m));
    assert!(!doc.record_edit(EditOutcome::Unchanged));
    assert_eq!(doc.active_message, Some(m));
    assert_eq!(doc.display_step(), DisplayStep::Edit(m));
}

#[test]
fn edit_with_new_reference_is_kept() {
    let mut doc = Document::default();
    doc.active_message = Some(MessageRef { chat_id: 7, message_id: 41 });
    let n = MessageRef { chat_id: 7, message_id: 42 };
    assert!(!doc.record_edit(EditOutcome::Edited(n)));
    assert_eq!(doc.active_message, Some(n));
}

#[test]
fn failed_edit_falls_back_to_send() {
    let mut doc = Document::default();
    let m = MessageRef { chat_id: 7, message_id: 41 };
    doc.active_message = Some(m);
    assert!(doc.record_edit(EditOutcome::Failed));
    assert_eq!(doc.active_message, Some(m));
    let n = MessageRef { chat_id: 7, message_id: 50 };
    doc.record_sent(n);
    assert_eq!(doc.active_message, Some(n));
}

#[test]
fn restore_without_store_gives_empty_document() {
    let doc = Document::restore(None);
    assert!(doc.items.is_empty());
    assert!(doc.recipes.is_empty());
    assert!(doc.active_message.is_none());
    assert!(doc.current_recipe.is_none());
}

#[test]
fn restore_keeps_a_consistent_document() {
    let mut loaded = Document::default();
    loaded.items = vec![item("Milk", true)];
    loaded.recipes = vec![Recipe { name: "Tea".to_string(), ingredients: vec!["Leaves".to_string()] }];
    loaded.active_message = Some(MessageRef { chat_id: 1, message_id: 2 });
    loaded.current_recipe = Some(RecipeDraft { name: None, ingredients: vec![] });
    let doc = Document::restore(Some(loaded));
    assert_eq!(items_of(&doc), pairs(&[("Milk", true)]));
    assert_eq!(recipes_of(&doc), vec![("Tea".to_string(), vec!["Leaves".to_string()])]);
    assert_eq!(doc.active_message, Some(MessageRef { chat_id: 1, message_id: 2 }));
    assert!(doc.current_recipe.is_some());
}

#[test]
fn restore_discards_repeated_recipe_names() {
    let mut loaded = Document::default();
    loaded.items = vec![item("Milk", true)];
    loaded.recipes = vec![
        Recipe { name: "Tea".to_string(), ingredients: vec![] },
        Recipe { name: "Tea".to_string(), ingredients: vec!["Leaves".to_string()] },
    ];
    assert!(!loaded.recipes_unique());
    let doc = Document::restore(Some(loaded));
    assert!(doc.items.is_empty());
    assert!(doc.recipes.is_empty());
}

#[test]
fn empty_draft_text_is_empty() {
    let mut doc = Document::default();
    assert_eq!(doc.recipe_draft_text(), "");
    doc.current_recipe = Some(RecipeDraft { name: None, ingredients: vec![] });
    assert_eq!(doc.recipe_draft_text(), "");
}

#[test]
fn empty_list_text_is_header_only() {
    let doc = Document::default();
    assert_eq!(doc.shopping_list_text(), "Einkaufsliste:\n");
}

#[test]
fn decimal_numbers() {
    assert_eq!(decimal_string(0), "0");
    assert_eq!(decimal_string(7), "7");
    assert_eq!(decimal_string(10), "10");
    assert_eq!(decimal_string(1234), "1234");
    assert_eq!(decimal_string(usize::MAX), usize::MAX.to_string());
    assert_eq!(parse_number("42"), Some(42));
    assert_eq!(parse_number("007"), Some(7));
    assert_eq!(parse_number(""), None);
    assert_eq!(parse_number("4a"), None);
    assert_eq!(parse_number(&usize::MAX.to_string()), Some(usize::MAX));
    assert_eq!(parse_number("99999999999999999999999"), None);
}

#[test]
fn prefixes_and_equality() {
    assert!(starts_with("#note", "#"));
    assert!(!starts_with("note", "#"));
    assert!(!starts_with("", "#"));
    assert!(same_text("Käse", "Käse"));
    assert!(!same_text("Käse", "Kase"));
}

#[test]
fn shown_buttons_decode_to_their_actions() {
    let mut doc = Document::default();
    doc.items = (0..12).map(|i| item(&format!("Item {}", i), i % 2 == 0)).collect();
    doc.recipes = vec![Recipe { name: "Tomato Sauce".to_string(), ingredients: vec![] }];
    let list = doc.list_keyboard();
    for (i, row) in list.rows.iter().take(12).enumerate() {
        match decode_action(&row[0].action) {
            Ok(Action::Toggle(j)) => assert_eq!(i, j),
            _ => panic!("expected a toggle"),
        }
    }
    assert!(matches!(decode_action(&list.rows[12][0].action), Ok(Action::RemoveDone)));
    let picker = doc.recipe_keyboard();
    match decode_action(&picker.rows[0][0].action) {
        Ok(Action::Add(name)) => assert_eq!(name, "Tomato Sauce"),
        _ => panic!("expected an add"),
    }
    assert!(matches!(decode_action(&picker.rows[1][0].action), Ok(Action::ReturnToMainList)));
}
