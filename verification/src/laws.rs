//! What holds of the pipeline as a whole, proved from the definitions that
//! the contracts of the functions use.

use crate::extract::{large_max, page_number, query_value, small_max};
use crate::handlers::{
    created_reply, delete_failure_reply, deleted_user, fixed_users_spec, is_protected, item_line,
    protected_text,
};
use crate::json::user_json_spec;
use crate::model::{Content, Method, Rejection, Route, UserSource, UserView};
use crate::response::{
    failure_reply, json_reply, not_found_reply, rejection_reply, reply, users_reply,
};
use crate::router::{handle_spec, param_of, route_of, route_param, show_item_reply, StepView};
use crate::text::{
    all_digits, decimal, digit_char, digit_value, digits_value, find_from, numeral_digits,
    parse_unsigned_spec,
};
use vstd::prelude::*;

verus! {

/// The decimal writing of a number is a non-empty run of digits that
/// writes that number.
pub proof fn lemma_decimal_digits(n: nat)
    ensures
        decimal(n).len() > 0,
        all_digits(decimal(n)),
        digits_value(decimal(n)) == n,
    decreases n,
{
    let s = decimal(n);
    if n < 10 {
        assert(s.drop_last() =~= Seq::<char>::empty());
        assert(digits_value(s.drop_last()) == 0);
        assert(digit_value(digit_char(n)) == Some(n));
    } else {
        lemma_decimal_digits(n / 10);
        assert(s.drop_last() =~= decimal(n / 10));
        assert(s.last() == digit_char(n % 10));
        assert(digit_value(digit_char(n % 10)) == Some(n % 10));
        assert forall|i: int| 0 <= i < s.len() implies (#[trigger] digit_value(s[i])) is Some by {
            if i < s.len() - 1 {
                assert(s[i] == decimal(n / 10)[i]);
            }
        }
    }
}

/// Reading the decimal writing of a number gives the number back, if it
/// is within the limit.
pub proof fn law_parse_decimal(n: nat, max: nat)
    requires
        n <= max,
    ensures
        parse_unsigned_spec(decimal(n), max) == Some(n),
{
    lemma_decimal_digits(n);
    assert(digit_value(decimal(n)[0]) is Some);
    assert(numeral_digits(decimal(n)) == decimal(n));
}

/// Where `s` does not hold `c` from `from` on, the search runs to the end.
pub proof fn lemma_find_from_absent(s: Seq<char>, c: char, from: int)
    requires
        0 <= from <= s.len(),
        forall|i: int| from <= i < s.len() ==> s[i] != c,
    ensures
        find_from(s, c, from) == s.len(),
    decreases s.len() - from,
{
    if from < s.len() {
        lemma_find_from_absent(s, c, from + 1);
    }
}

/// A route matches on the method and the shape of the path alone: whatever
/// one segment follows `/item/` or `/delete-user/`, number or not, the
/// route is selected and the segment handed on unread. Whether it is a
/// number is then for the extractor to say, with status 400 and never 404.
pub proof fn law_shape_before_type(segment: Seq<char>)
    requires
        segment.len() > 0,
        forall|i: int| 0 <= i < segment.len() ==> segment[i] != '/',
    ensures
        route_of(Method::Get, "/item/"@ + segment) == Some(Route::ShowItem),
        route_param(Route::ShowItem, "/item/"@ + segment) == segment,
        route_of(Method::Delete, "/delete-user/"@ + segment) == Some(Route::DeleteUser),
        route_param(Route::DeleteUser, "/delete-user/"@ + segment) == segment,
{
    reveal_strlit("/item/");
    reveal_strlit("/delete-user/");
    reveal_strlit("/users");
    reveal_strlit("/");
    let item_path = "/item/"@ + segment;
    assert(item_path.subrange(0, 6) =~= "/item/"@);
    assert(item_path.subrange(6, item_path.len() as int) =~= segment);
    assert forall|i: int| 6 <= i < item_path.len() implies item_path[i] != '/' by {
        assert(item_path[i] == segment[i - 6]);
    }
    lemma_find_from_absent(item_path, '/', 6);
    assert(param_of(item_path, "/item/"@) == Some(segment));
    let user_path = "/delete-user/"@ + segment;
    assert(user_path.subrange(0, 13) =~= "/delete-user/"@);
    assert(user_path.subrange(13, user_path.len() as int) =~= segment);
    assert forall|i: int| 13 <= i < user_path.len() implies user_path[i] != '/' by {
        assert(user_path[i] == segment[i - 13]);
    }
    lemma_find_from_absent(user_path, '/', 13);
    assert(param_of(user_path, "/delete-user/"@) == Some(segment));
}

/// The decimal writing of a number holds no `/`, `&` or `=`.
pub proof fn lemma_decimal_plain(n: nat)
    ensures
        forall|i: int|
            0 <= i < decimal(n).len() ==> {
                let c = #[trigger] decimal(n)[i];
                c != '/' && c != '&' && c != '='
            },
{
    lemma_decimal_digits(n);
    assert forall|i: int| 0 <= i < decimal(n).len() implies {
        let c = #[trigger] decimal(n)[i];
        c != '/' && c != '&' && c != '='
    } by {
        assert(digit_value(decimal(n)[i]) is Some);
    }
}

/// For every item id and page number, the request for that item on that
/// page, written in decimal, is answered with status 200 and exactly the
/// line that names both.
pub proof fn law_show_item(source: UserSource, id: u32, number: u32, body: Seq<u8>)
    ensures
        handle_spec(source, Method::Get, "/item/"@ + decimal(id as nat), "number="@ + decimal(
            number as nat,
        ), body) == StepView::Reply(
            reply(200, Content::Text, item_line(id as nat, number as nat)),
        ),
{
    reveal_strlit("number=");
    reveal_strlit("number");
    let id_text = decimal(id as nat);
    let number_text = decimal(number as nat);
    let query = "number="@ + number_text;
    lemma_decimal_digits(id as nat);
    law_parse_decimal(id as nat, small_max());
    law_parse_decimal(number as nat, small_max());
    lemma_decimal_plain(id as nat);
    lemma_decimal_plain(number as nat);
    law_shape_before_type(id_text);

    assert forall|i: int| 0 <= i < query.len() implies query[i] != '&' by {
        if i >= 7 {
            assert(query[i] == number_text[i - 7]);
        }
    }
    lemma_find_from_absent(query, '&', 0);
    assert(query.subrange(0, query.len() as int) =~= query);
    assert(find_from(query, '=', 0) == 6) by {
        reveal_with_fuel(find_from, 8);
    }
    assert(query.subrange(0, 6) =~= "number"@);
    assert(query.subrange(7, query.len() as int) =~= number_text);
    assert(query_value(query, "number"@, 0) == Some(number_text));
    assert(page_number(query) == Some(number as nat));
}

/// A request for the item page whose path segment is no item id, or whose
/// query carries no page number, is answered with status 400, and the
/// handler's line is not produced.
pub proof fn law_show_item_rejects(segment: Seq<char>, query: Seq<char>)
    requires
        parse_unsigned_spec(segment, small_max()) is None || page_number(query) is None,
    ensures
        show_item_reply(segment, query).status == 400,
        parse_unsigned_spec(segment, small_max()) is None ==> show_item_reply(segment, query)
            == rejection_reply(Rejection::Path),
{
}

/// Creating a user is answered with status 201 whatever the query and the
/// body hold, and whichever source the users come from.
pub proof fn law_create_user(source: UserSource, query: Seq<char>, body: Seq<u8>)
    ensures
        handle_spec(source, Method::Post, "/create-user"@, query, body) == StepView::Reply(
            created_reply(),
        ),
        created_reply().status == 201,
{
}

/// A request that no route matches is answered with status 404 and an
/// empty body; a request that a route matches never is.
pub proof fn law_not_found(
    source: UserSource,
    method: Method,
    path: Seq<char>,
    query: Seq<char>,
    body: Seq<u8>,
)
    ensures
        route_of(method, path) is None <==> handle_spec(source, method, path, query, body)
            == StepView::Reply(not_found_reply()),
        method == Method::Other ==> route_of(method, path) is None,
{
}

/// For every user id, the request to delete that user, with the id written
/// in decimal, is answered with status 500 and the policy's reason where the
/// user is protected, and otherwise with the record that stands for the
/// deleted user.
pub proof fn law_delete_user(source: UserSource, id: u64, query: Seq<char>, body: Seq<u8>)
    ensures
        handle_spec(source, Method::Delete, "/delete-user/"@ + decimal(id as nat), query, body)
            == StepView::Reply(
            if is_protected(id) {
                delete_failure_reply(protected_text())
            } else {
                json_reply(user_json_spec(deleted_user(id)))
            },
        ),
        is_protected(id) <==> id == 1,
        delete_failure_reply(protected_text()).status == 500,
{
    lemma_decimal_digits(id as nat);
    law_parse_decimal(id as nat, large_max());
    lemma_decimal_plain(id as nat);
    law_shape_before_type(decimal(id as nat));
}

/// The fixed user list holds exactly two records, with the ids 1 and 2 in
/// this order.
pub proof fn law_fixed_users()
    ensures
        fixed_users_spec().len() == 2,
        fixed_users_spec()[0].id == 1,
        fixed_users_spec()[1].id == 2,
{
}

/// A failed read of the store is answered with status 500 and the generic
/// text: nothing of a list is in the body.
pub proof fn law_failed_read()
    ensures
        users_reply(None) == failure_reply(),
        failure_reply().status == 500,
        failure_reply().content == Content::Text,
{
}

/// The store is read for one request only: the user list, where the users
/// come from the store. A request that an extractor turns down, or that no
/// route matches, never reaches it.
pub proof fn law_store_reads(
    source: UserSource,
    method: Method,
    path: Seq<char>,
    query: Seq<char>,
    body: Seq<u8>,
)
    ensures
        handle_spec(source, method, path, query, body) == StepView::QueryUsers <==> (route_of(
            method,
            path,
        ) == Some(Route::ListUsers) && source == UserSource::Store),
        route_of(method, path) == Some(Route::ListUsers) <==> (method == Method::Get && path
            == "/users"@),
{
    reveal_strlit("/users");
    reveal_strlit("/");
}

/// Every response carries one of five status codes: 200 and 201 for
/// success, 400 for a request that an extractor turned down, 404 for a
/// request that no route matches, 500 for a failure of a handler or of the
/// store.
pub proof fn law_statuses(
    source: UserSource,
    method: Method,
    path: Seq<char>,
    query: Seq<char>,
    body: Seq<u8>,
    outcome: Option<Seq<UserView>>,
)
    ensures
        match handle_spec(source, method, path, query, body) {
            StepView::Reply(r) => r.status == 200 || r.status == 201 || r.status == 400
                || r.status == 404 || r.status == 500,
            StepView::QueryUsers => true,
        },
        users_reply(outcome).status == 200 || users_reply(outcome).status == 500,
{
}

} // verus!
