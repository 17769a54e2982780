//! Facts about the conversation's rules, stated over the models that the
//! event handlers' contracts use.

use vstd::prelude::*;
use crate::document::{
    added_items, fresh_item, lemma_recipe_position, recipe_position, with_recipe, DocModel,
    ItemModel, RecipeModel,
};
use crate::router::{
    action_effect, action_fails, decode, is_comment, text_effect, text_ignored, ActionModel,
    EventError,
};
use crate::screen::{
    add_action, capture_keyboard, list_keyboard, main_menu, recipe_keyboard, toggle_action,
};
use crate::text::{decimal, has_prefix, lemma_decimal_round_trip};

verus! {

/// Toggling the same item twice gives back the document.
pub proof fn lemma_toggle_twice(d: DocModel, i: usize)
    requires
        i < d.items.len(),
    ensures
        !action_fails(d, ActionModel::Toggle(i)),
        !action_fails(action_effect(d, ActionModel::Toggle(i)), ActionModel::Toggle(i)),
        action_effect(action_effect(d, ActionModel::Toggle(i)), ActionModel::Toggle(i)) == d,
{
    let once = action_effect(d, ActionModel::Toggle(i));
    assert(action_effect(once, ActionModel::Toggle(i)).items =~= d.items);
}

/// After removing the checked items, what is left is exactly the unchecked
/// items, in the order they had; nothing else changes.
pub proof fn lemma_remove_done(d: DocModel)
    ensures
        ({
            let r = action_effect(d, ActionModel::RemoveDone);
            &&& r.items == d.items.filter(|it: ItemModel| !it.checked)
            &&& forall|k: int| 0 <= k < r.items.len() ==> !(#[trigger] r.items[k]).checked
            &&& forall|k: int|
                0 <= k < d.items.len() && !d.items[k].checked ==> r.items.contains(
                    #[trigger] d.items[k],
                )
            &&& r.recipes == d.recipes
            &&& r.draft == d.draft
        }),
{
    let pred = |it: ItemModel| !it.checked;
    let r = action_effect(d, ActionModel::RemoveDone);
    assert forall|k: int| 0 <= k < r.items.len() implies !(#[trigger] r.items[k]).checked by {
        d.items.lemma_filter_pred(pred, k);
    }
    assert forall|k: int|
        0 <= k < d.items.len() && !d.items[k].checked implies r.items.contains(
        #[trigger] d.items[k],
    ) by {
        d.items.lemma_filter_contains(pred, k);
    }
}

/// Outside a dictation, a comment changes nothing and shows nothing.
pub proof fn lemma_comment_ignored(d: DocModel, t: Seq<char>)
    requires
        d.draft is None,
        is_comment(t),
    ensures
        text_ignored(d, t),
        text_effect(d, t) == d,
{
}

/// Adding a name that no recipe has appends one unchecked item of that name.
pub proof fn lemma_add_unknown(d: DocModel, s: Seq<char>)
    requires
        forall|k: int| 0 <= k < d.recipes.len() ==> #[trigger] d.recipes[k].name != s,
    ensures
        action_effect(d, ActionModel::Add(s)).items == d.items.push(fresh_item(s)),
{
    lemma_recipe_position(d.recipes, s);
    assert(d.items + added_items(d.recipes, s) =~= d.items.push(fresh_item(s)));
}

/// A recipe stored under its name is the one found by that name.
pub proof fn lemma_stored_recipe_found(rs: Seq<RecipeModel>, r: RecipeModel)
    ensures
        ({
            let k = recipe_position(with_recipe(rs, r), r.name);
            k is Some && with_recipe(rs, r)[k->0] == r
        }),
{
    lemma_recipe_position(rs, r.name);
    let stored = with_recipe(rs, r);
    lemma_recipe_position(stored, r.name);
    match recipe_position(rs, r.name) {
        Some(k) => {
            assert(stored[k] == r);
            let found = recipe_position(stored, r.name)->0;
            if found < k {
                assert(stored[found] == rs[found]);
            }
            if found > k {
                assert(stored[k].name == r.name);
            }
        },
        None => {
            let found = recipe_position(stored, r.name)->0;
            if found < rs.len() {
                assert(stored[found] == rs[found]);
            }
        },
    }
}

/// Dictating a recipe (its name, then two ingredients), finishing it, and
/// then adding it by name appends exactly its two ingredients, unchecked.
pub proof fn lemma_recipe_round_trip(
    d: DocModel,
    name: Seq<char>,
    first: Seq<char>,
    second: Seq<char>,
)
    ensures
        ({
            let started = action_effect(d, ActionModel::StartRecipe);
            let named = text_effect(started, name);
            let one = text_effect(named, first);
            let two = text_effect(one, second);
            let done = action_effect(two, ActionModel::RecipeDone);
            let added = action_effect(done, ActionModel::Add(name));
            &&& done.draft is None
            &&& done.items == d.items
            &&& added.items == d.items + seq![fresh_item(first), fresh_item(second)]
        }),
{
    let started = action_effect(d, ActionModel::StartRecipe);
    let named = text_effect(started, name);
    let one = text_effect(named, first);
    let two = text_effect(one, second);
    let r = RecipeModel { name, ingredients: seq![first, second] };
    assert(two.draft->0.ingredients =~= seq![first, second]);
    let done = action_effect(two, ActionModel::RecipeDone);
    assert(done.recipes == with_recipe(d.recipes, r));
    lemma_stored_recipe_found(d.recipes, r);
    assert(added_items(done.recipes, name) =~= seq![fresh_item(first), fresh_item(second)]);
}

/// The callback data of the toggle button of item `i` decodes to a toggle of `i`.
pub proof fn lemma_decode_toggle(i: nat)
    requires
        i <= usize::MAX,
    ensures
        decode(toggle_action(i)) == Ok::<ActionModel, EventError>(ActionModel::Toggle(i as usize)),
{
    reveal_strlit("start_recipe");
    reveal_strlit("start_remove");
    reveal_strlit("recipe_done");
    reveal_strlit("remove_done");
    reveal_strlit("list_recipes");
    reveal_strlit("return_to_main_list");
    reveal_strlit("toggle");
    reveal_strlit("toggle ");
    let data = toggle_action(i);
    lemma_decimal_round_trip(i);
    assert(data[0] == 't');
    assert(data.len() > 7);
    assert(data.take(7) =~= "toggle "@);
    assert(data.skip(7) =~= decimal(i));
    assert(data != "start_recipe"@ && data != "start_remove"@ && data != "list_recipes"@) by {
        assert("start_recipe"@[0] == 's' && "start_remove"@[0] == 's' && "list_recipes"@[0] == 'l');
    }
    assert(data != "recipe_done"@ && data != "remove_done"@ && data != "return_to_main_list"@) by {
        assert("recipe_done"@[0] == 'r' && "remove_done"@[0] == 'r' && "return_to_main_list"@[0] == 'r');
    }
    assert(data != "toggle"@) by {
        assert("toggle"@.len() == 6);
    }
}

/// The callback data of the button of recipe `name` decodes to adding `name`.
pub proof fn lemma_decode_add(name: Seq<char>)
    ensures
        decode(add_action(name)) == Ok::<ActionModel, EventError>(ActionModel::Add(name)),
{
    reveal_strlit("start_recipe");
    reveal_strlit("start_remove");
    reveal_strlit("recipe_done");
    reveal_strlit("remove_done");
    reveal_strlit("list_recipes");
    reveal_strlit("return_to_main_list");
    reveal_strlit("toggle");
    reveal_strlit("toggle ");
    reveal_strlit("add ");
    let data = add_action(name);
    assert(data[0] == 'a');
    assert(data.take(4) =~= "add "@);
    assert(data.skip(4) =~= name);
    assert(data != "start_recipe"@ && data != "start_remove"@ && data != "list_recipes"@) by {
        assert("start_recipe"@[0] == 's' && "start_remove"@[0] == 's' && "list_recipes"@[0] == 'l');
    }
    assert(data != "recipe_done"@ && data != "remove_done"@ && data != "return_to_main_list"@) by {
        assert("recipe_done"@[0] == 'r' && "remove_done"@[0] == 'r' && "return_to_main_list"@[0] == 'r');
    }
    assert(data != "toggle"@) by {
        assert("toggle"@[0] == 't');
    }
    assert(!has_prefix(data, "toggle "@)) by {
        if "toggle "@.len() <= data.len() {
            assert(data.take(7)[0] == 'a');
            assert("toggle "@[0] == 't');
        }
    }
}

/// Every button that the bot shows sends back the press it stands for: the
/// toggle of its own item, the adding of its own recipe, or its fixed action.
pub proof fn lemma_buttons_decode(d: DocModel)
    ensures
        forall|i: int|
            0 <= i < d.items.len() && i <= usize::MAX ==> decode(
                (#[trigger] list_keyboard(d.items)[i])[0].action,
            ) == Ok::<ActionModel, EventError>(ActionModel::Toggle(i as usize)),
        decode(list_keyboard(d.items)[d.items.len() as int][0].action) == Ok::<
            ActionModel,
            EventError,
        >(ActionModel::RemoveDone),
        forall|k: int|
            0 <= k < d.recipes.len() ==> decode(
                (#[trigger] recipe_keyboard(d.recipes)[k])[0].action,
            ) == Ok::<ActionModel, EventError>(ActionModel::Add(d.recipes[k].name)),
        decode(recipe_keyboard(d.recipes)[d.recipes.len() as int][0].action) == Ok::<
            ActionModel,
            EventError,
        >(ActionModel::ReturnToMainList),
        decode(main_menu()[0][0].action) == Ok::<ActionModel, EventError>(
            ActionModel::StartRemove,
        ),
        decode(main_menu()[0][1].action) == Ok::<ActionModel, EventError>(
            ActionModel::ListRecipes,
        ),
        decode(main_menu()[1][0].action) == Ok::<ActionModel, EventError>(
            ActionModel::StartRecipe,
        ),
        decode(capture_keyboard()[0][0].action) == Ok::<ActionModel, EventError>(
            ActionModel::RecipeDone,
        ),
{
    reveal_strlit("start_recipe");
    reveal_strlit("start_remove");
    reveal_strlit("recipe_done");
    reveal_strlit("remove_done");
    reveal_strlit("list_recipes");
    reveal_strlit("return_to_main_list");
    reveal_strlit("toggle");
    reveal_strlit("toggle ");
    reveal_strlit("add ");
    assert forall|i: int| 0 <= i < d.items.len() && i <= usize::MAX implies decode(
        (#[trigger] list_keyboard(d.items)[i])[0].action,
    ) == Ok::<ActionModel, EventError>(ActionModel::Toggle(i as usize)) by {
        lemma_decode_toggle(i as nat);
    }
    assert forall|k: int| 0 <= k < d.recipes.len() implies decode(
        (#[trigger] recipe_keyboard(d.recipes)[k])[0].action,
    ) == Ok::<ActionModel, EventError>(ActionModel::Add(d.recipes[k].name)) by {
        lemma_decode_add(d.recipes[k].name);
    }
    assert("remove_done"@ != "start_recipe"@ && "remove_done"@ != "start_remove"@) by {
        assert("remove_done"@[1] == 'e');
    }
    assert("remove_done"@ != "recipe_done"@) by {
        assert("remove_done"@[2] == 'm' && "recipe_done"@[2] == 'c');
    }
    assert("return_to_main_list"@ != "start_recipe"@ && "return_to_main_list"@ != "start_remove"@
        && "return_to_main_list"@ != "recipe_done"@ && "return_to_main_list"@ != "remove_done"@
        && "return_to_main_list"@ != "list_recipes"@) by {
        assert("return_to_main_list"@.len() == 19);
    }
    assert("list_recipes"@ != "start_recipe"@ && "list_recipes"@ != "start_remove"@
        && "list_recipes"@ != "recipe_done"@ && "list_recipes"@ != "remove_done"@) by {
        assert("list_recipes"@[0] == 'l');
    }
    assert("start_remove"@ != "start_recipe"@) by {
        assert("start_remove"@[8] == 'm' && "start_recipe"@[8] == 'c');
    }
    assert("recipe_done"@ != "start_recipe"@ && "recipe_done"@ != "start_remove"@) by {
        assert("recipe_done"@[0] == 'r');
    }
}

}
