//! What a list looks like to its owner and to a visitor, and the markup of
//! either view.

use crate::auth_and_login::User;
use crate::escape::{encode_quoted_attribute, encode_text, escaped_attribute, escaped_text};
use crate::model::{AllocationView, PresentView, UserView};
use crate::route_handlers::Present;
use crate::state::Allocation;
use crate::text::{append_decimal, decimal};
use vstd::prelude::*;
use vstd::string::*;

verus! {

/// From where a list is looked at.
#[derive(Clone, Copy, Debug, PartialEq, Eq)]
pub enum Perspective {
    /// The caller looks at their own list.
    Owner,
    /// The caller looks at the list of another.
    Visitor,
}

/// The perspective in which `caller_id` sees the list of `owner_id`.
pub open spec fn perspective_of(caller_id: int, owner_id: int) -> Perspective {
    if caller_id == owner_id {
        Perspective::Owner
    } else {
        Perspective::Visitor
    }
}

/// The perspective in which `caller_id` sees the list of `owner_id`.
pub fn perspective(caller_id: i32, owner_id: i32) -> (seen_as: Perspective)
    ensures
        seen_as == perspective_of(caller_id as int, owner_id as int),
{
    if caller_id == owner_id {
        Perspective::Owner
    } else {
        Perspective::Visitor
    }
}

/// An item as one perspective shows it.
#[derive(Debug)]
pub struct ItemView {
    pub perspective: Perspective,
    pub id: i32,
    pub name: String,
    pub url: String,
    pub price: String,
    pub taken: bool,
    /// Who claimed the item. An owner's view never names anybody.
    pub claimer: Option<String>,
}

/// The mathematical content of an `ItemView`.
pub struct ItemSight {
    pub perspective: Perspective,
    pub id: int,
    pub name: Seq<char>,
    pub url: Seq<char>,
    pub price: Seq<char>,
    pub taken: bool,
    pub claimer: Option<Seq<char>>,
}

impl View for ItemView {
    type V = ItemSight;

    open spec fn view(&self) -> ItemSight {
        ItemSight {
            perspective: self.perspective,
            id: self.id as int,
            name: self.name@,
            url: self.url@,
            price: self.price@,
            taken: self.taken,
            claimer: match self.claimer {
                Some(name) => Some(name@),
                None => None,
            },
        }
    }
}

impl DeepView for ItemView {
    type V = ItemSight;

    open spec fn deep_view(&self) -> ItemSight {
        self@
    }
}

/// What `seen_as` shows of an item: all of it to a visitor, and all but the
/// claimer to the owner.
pub open spec fn sight_of(item: PresentView, seen_as: Perspective) -> ItemSight {
    ItemSight {
        perspective: seen_as,
        id: item.id,
        name: item.name,
        url: item.url,
        price: item.price,
        taken: item.taken,
        claimer: match seen_as {
            Perspective::Owner => None,
            Perspective::Visitor => item.taken_by_name,
        },
    }
}

/// What `seen_as` shows of a list.
pub open spec fn sights_of(items: Seq<PresentView>, seen_as: Perspective) -> Seq<ItemSight> {
    Seq::new(items.len(), |i: int| sight_of(items[i], seen_as))
}

/// What `seen_as` shows of an item.
pub fn item_view(item: &Present, seen_as: Perspective) -> (view: ItemView)
    ensures
        view@ == sight_of(item@, seen_as),
{
    let claimer = match seen_as {
        Perspective::Owner => None,
        Perspective::Visitor => match &item.taken_by_name {
            Some(name) => Some(name.clone()),
            None => None,
        },
    };
    ItemView {
        perspective: seen_as,
        id: item.id,
        name: item.name.clone(),
        url: item.url.clone(),
        price: item.price.clone(),
        taken: item.taken,
        claimer,
    }
}

/// What `seen_as` shows of a list.
pub fn item_views(items: &Vec<Present>, seen_as: Perspective) -> (views: Vec<ItemView>)
    ensures
        views.deep_view() == sights_of(items.deep_view(), seen_as),
{
    let mut views: Vec<ItemView> = Vec::new();
    let mut i: usize = 0;
    while i < items.len()
        invariant
            i <= items.len(),
            views.len() == i,
            forall|k: int|
                0 <= k < i ==> (#[trigger] views[k])@ == sight_of(items[k]@, seen_as),
        decreases items.len() - i,
    {
        views.push(item_view(&items[i], seen_as));
        i = i + 1;
    }
    assert(views.deep_view() =~= sights_of(items.deep_view(), seen_as));
    views
}

/// The mark that says whether an item is taken.
pub open spec fn taken_mark(taken: bool) -> Seq<char> {
    if taken {
        "<i class='fa-regular fa-check'></i>"@
    } else {
        "<i class='fa-regular fa-x'></i>"@
    }
}

/// The action that a visitor is offered: claiming, unless the item is
/// taken.
pub open spec fn claim_mark(taken: bool) -> Seq<char> {
    if taken {
        ""@
    } else {
        "<i class='fa-sharp fa-solid fa-cart-plus'></i>"@
    }
}

/// The name of the claimer as a visitor reads it: empty while nobody has
/// claimed the item.
pub open spec fn claimer_text(claimer: Option<Seq<char>>) -> Seq<char> {
    match claimer {
        Some(name) => escaped_text(name),
        None => ""@,
    }
}

/// The table row of an item on the owner's own list. It is made of the
/// item's name, link, price and id, and of whether the item is taken.
pub open spec fn owner_row(item: ItemSight) -> Seq<char> {
    "<tr><td><a href='"@ + escaped_attribute(item.url) + "'>"@ + escaped_text(item.name)
        + "</a></td><td>"@ + escaped_text(item.price) + "</td><td style='text-align:center'>"@
        + taken_mark(item.taken)
        + "</td><td><a href='#' hx-target='closest tr' hx-swap='outerHTML' hx-delete='./item/"@
        + decimal(item.id) + "' hx-confirm='Please confirm you wish to delete "@
        + escaped_attribute(item.name)
        + " from your list'><i class=\"fa-duotone fa-trash-can\"></i></a></td></tr>\n"@
}

/// The table row of an item on a list that the caller visits.
pub open spec fn visitor_row(item: ItemSight) -> Seq<char> {
    "<tr><td><a href='"@ + escaped_attribute(item.url) + "'>"@ + escaped_text(item.name)
        + "</a></td><td>"@ + escaped_text(item.price) + "</td><td style='text-align:center'>"@
        + taken_mark(item.taken) + "</td><td class='taken-by'>"@ + claimer_text(item.claimer)
        + "</td><td><a hx-patch='./item/"@ + decimal(item.id)
        + "' hx-confirm='Please confirm you are buying or have bought "@ + escaped_attribute(
        item.name,
    ) + "' hx-target='closest tr' href='#'>"@ + claim_mark(item.taken) + "</a></td></tr>\n"@
}

/// The table row of an item.
pub open spec fn item_row(item: ItemSight) -> Seq<char> {
    match item.perspective {
        Perspective::Owner => owner_row(item),
        Perspective::Visitor => visitor_row(item),
    }
}

/// The table rows of the first `n` items.
pub open spec fn item_rows(items: Seq<ItemSight>, n: int) -> Seq<char>
    decreases n,
{
    if n <= 0 {
        Seq::empty()
    } else {
        item_rows(items, n - 1) + item_row(items[n - 1])
    }
}

/// What opens the table of a list: the owner gets a column to delete
/// items, a visitor one that names the claimers and one to claim.
pub open spec fn table_head(seen_as: Perspective) -> Seq<char> {
    match seen_as {
        Perspective::Owner => "<table id='list-table'><thead><th>Name</th><th>Price</th><th>Taken</th><th>Delete</th></tr></thead>\n<tbody>"@,
        Perspective::Visitor => "<table id='list-table'><thead><th>Name</th><th>Price</th><th>Taken</th><th class='taken-by'>Taken by</th><th>Action</th></tr></thead>\n"@,
    }
}

/// What closes the table: an empty list gets a word of explanation.
pub open spec fn table_foot(seen_as: Perspective, empty: bool) -> Seq<char> {
    if !empty {
        "</tbody></table>"@
    } else {
        match seen_as {
            Perspective::Owner => "</tbody></table><p class='no-presents'>You have no items in your list, try adding some below.</p>"@,
            Perspective::Visitor => "</tbody></table><p class='no-presents'>This person's list is currently empty.</p>"@,
        }
    }
}

/// The markup of a list.
pub open spec fn items_table(seen_as: Perspective, items: Seq<ItemSight>) -> Seq<char> {
    table_head(seen_as) + item_rows(items, items.len() as int) + table_foot(
        seen_as,
        items.len() == 0,
    )
}

fn taken_mark_text(taken: bool) -> (mark: &'static str)
    ensures
        mark@ == taken_mark(taken),
{
    if taken {
        "<i class='fa-regular fa-check'></i>"
    } else {
        "<i class='fa-regular fa-x'></i>"
    }
}

/// The table row of an item on the owner's own list.
pub fn render_owner_row(item: &ItemView) -> (row: String)
    ensures
        row@ == owner_row(item@),
{
    let mut row = "<tr><td><a href='".to_owned();
    row.append(encode_quoted_attribute(item.url.as_str()).as_str());
    row.append("'>");
    row.append(encode_text(item.name.as_str()).as_str());
    row.append("</a></td><td>");
    row.append(encode_text(item.price.as_str()).as_str());
    row.append("</td><td style='text-align:center'>");
    row.append(taken_mark_text(item.taken));
    row.append(
        "</td><td><a href='#' hx-target='closest tr' hx-swap='outerHTML' hx-delete='./item/",
    );
    append_decimal(&mut row, item.id as i64);
    row.append("' hx-confirm='Please confirm you wish to delete ");
    row.append(encode_quoted_attribute(item.name.as_str()).as_str());
    row.append(" from your list'><i class=\"fa-duotone fa-trash-can\"></i></a></td></tr>\n");
    row
}

/// The table row of an item on a list that the caller visits.
pub fn render_visitor_row(item: &ItemView) -> (row: String)
    ensures
        row@ == visitor_row(item@),
{
    let mut row = "<tr><td><a href='".to_owned();
    row.append(encode_quoted_attribute(item.url.as_str()).as_str());
    row.append("'>");
    row.append(encode_text(item.name.as_str()).as_str());
    row.append("</a></td><td>");
    row.append(encode_text(item.price.as_str()).as_str());
    row.append("</td><td style='text-align:center'>");
    row.append(taken_mark_text(item.taken));
    row.append("</td><td class='taken-by'>");
    match &item.claimer {
        Some(name) => {
            row.append(encode_text(name.as_str()).as_str());
        },
        None => {
            row.append("");
        },
    }
    row.append("</td><td><a hx-patch='./item/");
    append_decimal(&mut row, item.id as i64);
    row.append("' hx-confirm='Please confirm you are buying or have bought ");
    row.append(encode_quoted_attribute(item.name.as_str()).as_str());
    row.append("' hx-target='closest tr' href='#'>");
    if item.taken {
        row.append("");
    } else {
        row.append("<i class='fa-sharp fa-solid fa-cart-plus'></i>");
    }
    row.append("</a></td></tr>\n");
    row
}

/// The table row of an item, as its perspective shows it.
pub fn render_item(item: &ItemView) -> (row: String)
    ensures
        row@ == item_row(item@),
{
    match item.perspective {
        Perspective::Owner => render_owner_row(item),
        Perspective::Visitor => render_visitor_row(item),
    }
}

/// The markup of a list.
pub fn render_items(seen_as: Perspective, items: &Vec<ItemView>) -> (table: String)
    ensures
        table@ == items_table(seen_as, items.deep_view()),
{
    let mut table = match seen_as {
        Perspective::Owner => "<table id='list-table'><thead><th>Name</th><th>Price</th><th>Taken</th><th>Delete</th></tr></thead>\n<tbody>".to_owned(),
        Perspective::Visitor => "<table id='list-table'><thead><th>Name</th><th>Price</th><th>Taken</th><th class='taken-by'>Taken by</th><th>Action</th></tr></thead>\n".to_owned(),
    };
    let ghost sights = items.deep_view();
    let mut i: usize = 0;
    assert(table@ =~= table_head(seen_as) + item_rows(sights, 0));
    while i < items.len()
        invariant
            i <= items.len(),
            sights == items.deep_view(),
            table@ == table_head(seen_as) + item_rows(sights, i as int),
        decreases items.len() - i,
    {
        let row = render_item(&items[i]);
        table.append(row.as_str());
        assert(table@ =~= table_head(seen_as) + item_rows(sights, i + 1));
        i = i + 1;
    }
    if items.len() > 0 {
        table.append("</tbody></table>");
    } else {
        match seen_as {
            Perspective::Owner => {
                table.append(
                    "</tbody></table><p class='no-presents'>You have no items in your list, try adding some below.</p>",
                );
            },
            Perspective::Visitor => {
                table.append(
                    "</tbody></table><p class='no-presents'>This person's list is currently empty.</p>",
                );
            },
        }
    }
    table
}

/// The entry of a user in the selector of lists.
pub open spec fn user_option(user: UserView) -> Seq<char> {
    "<option value='"@ + decimal(user.id) + "'>"@ + escaped_text(user.username) + "</option>"@
}

/// The entries of the first `n` users.
pub open spec fn user_options(users: Seq<UserView>, n: int) -> Seq<char>
    decreases n,
{
    if n <= 0 {
        Seq::empty()
    } else {
        user_options(users, n - 1) + user_option(users[n - 1])
    }
}

/// The selector of lists: the caller's own list first, then the others.
pub open spec fn users_select(caller_id: int, others: Seq<UserView>) -> Seq<char> {
    "<select hx-target='#items' hx-get='./items/' hx-on='htmx:configRequest: event.detail.path += this.value' id='users-list' name='users-list'><option value='"@
        + decimal(caller_id) + "'>Your list</option>"@ + user_options(others, others.len() as int)
        + "</select>"@
}

/// The selector of lists: the caller's own list first, then the others.
pub fn render_users(caller_id: i32, others: &Vec<User>) -> (select: String)
    ensures
        select@ == users_select(caller_id as int, others.deep_view()),
{
    let mut select = "<select hx-target='#items' hx-get='./items/' hx-on='htmx:configRequest: event.detail.path += this.value' id='users-list' name='users-list'><option value='".to_owned();
    append_decimal(&mut select, caller_id as i64);
    select.append("'>Your list</option>");
    let ghost head = select@;
    let ghost users = others.deep_view();
    let mut i: usize = 0;
    assert(select@ =~= head + user_options(users, 0));
    while i < others.len()
        invariant
            i <= others.len(),
            users == others.deep_view(),
            select@ == head + user_options(users, i as int),
        decreases others.len() - i,
    {
        let user = &others[i];
        let mut entry = "<option value='".to_owned();
        append_decimal(&mut entry, user.id as i64);
        entry.append("'>");
        entry.append(encode_text(user.username.as_str()).as_str());
        entry.append("</option>");
        assert(entry@ == user_option(users[i as int]));
        select.append(entry.as_str());
        assert(select@ =~= head + user_options(users, i + 1));
        i = i + 1;
    }
    select.append("</select>");
    select
}

/// The cells that replace an item's row once the caller has claimed it.
pub open spec fn allocated_row(item: AllocationView, claimer: Seq<char>) -> Seq<char> {
    "<td><a href='"@ + escaped_attribute(item.url) + "'>"@ + escaped_text(item.name)
        + "</a></td><td>"@ + escaped_text(item.price)
        + "</td><td><i class='fa-regular fa-check'></i></td><td>"@ + escaped_text(claimer)
        + "</td><td></td>"@
}

/// The cells that replace an item's row once `claimer` has claimed it.
pub fn render_allocated(item: &Allocation, claimer: &str) -> (row: String)
    ensures
        row@ == allocated_row(item@, claimer@),
{
    let mut row = "<td><a href='".to_owned();
    row.append(encode_quoted_attribute(item.url.as_str()).as_str());
    row.append("'>");
    row.append(encode_text(item.name.as_str()).as_str());
    row.append("</a></td><td>");
    row.append(encode_text(item.price.as_str()).as_str());
    row.append("</td><td><i class='fa-regular fa-check'></i></td><td>");
    row.append(encode_text(claimer).as_str());
    row.append("</td><td></td>");
    row
}

/// The table row of an item that its owner has just added.
pub open spec fn added_row(id: int, name: Seq<char>, url: Seq<char>, price: Seq<char>) -> Seq<
    char,
> {
    "<tr><td><a href='"@ + escaped_attribute(url) + "'>"@ + escaped_text(name) + "</a></td><td>"@
        + escaped_text(price)
        + "</td><td style='text-align:center'><i class='fa-regular fa-x'></i></td><td><a href='#' hx-delete='./item/"@
        + decimal(id)
        + "' hx-target='closest tr' hx-swap='outerHTML' hx-confirm='Please confirm you wish to delete "@
        + escaped_attribute(name)
        + " from your list'><i class=\"fa-duotone fa-trash-can\"></i></a></td></tr>\n"@
}

/// The table row of an item that its owner has just added.
pub fn render_added(id: i32, name: &str, url: &str, price: &str) -> (row: String)
    ensures
        row@ == added_row(id as int, name@, url@, price@),
{
    let mut row = "<tr><td><a href='".to_owned();
    row.append(encode_quoted_attribute(url).as_str());
    row.append("'>");
    row.append(encode_text(name).as_str());
    row.append("</a></td><td>");
    row.append(encode_text(price).as_str());
    row.append(
        "</td><td style='text-align:center'><i class='fa-regular fa-x'></i></td><td><a href='#' hx-delete='./item/",
    );
    append_decimal(&mut row, id as i64);
    row.append(
        "' hx-target='closest tr' hx-swap='outerHTML' hx-confirm='Please confirm you wish to delete ",
    );
    row.append(encode_quoted_attribute(name).as_str());
    row.append(" from your list'><i class=\"fa-duotone fa-trash-can\"></i></a></td></tr>\n");
    row
}

} // verus!
