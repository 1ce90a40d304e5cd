//! What holds of creating and listing together.
//!
//! The table lives in storage. Here it is the sequence of its rows, and the
//! one thing that is asked of storage is what the schema promises: the id
//! that an insert generates is the id of no row that the table holds.
use vstd::prelude::*;
use crate::handlers::created_user;
use crate::json::{decimal_text, digit_char, digits_text};
use crate::model::{user_text, UserRecord};
use crate::response::{user_response, CREATED};

verus! {

/// Whether one of the rows has this id.
pub open spec fn holds_id(rows: Seq<UserRecord>, id: int) -> bool {
    exists|i: int| 0 <= i < rows.len() && (#[trigger] rows[i]).id == id
}

/// The rows of the table after the insert of a user.
pub open spec fn after_insert(rows: Seq<UserRecord>, user: UserRecord) -> Seq<UserRecord> {
    rows.push(user)
}

/// A user that was created is listed once: where storage gave the insert an
/// id that no row of the table held, the rows after the insert hold the
/// user's id, name and email in exactly one place.
pub proof fn lemma_created_user_is_listed_once(
    rows: Seq<UserRecord>,
    name: Seq<char>,
    email: Seq<char>,
    id: int,
)
    requires
        !holds_id(rows, id),
    ensures
        ({
            let user = created_user(name, email, id);
            let listed = after_insert(rows, user);
            &&& listed.contains(user)
            &&& forall|i: int, j: int|
                0 <= i < listed.len() && 0 <= j < listed.len() && listed[i] == user && listed[j]
                    == user ==> i == j
        }),
{
    let user = created_user(name, email, id);
    let listed = after_insert(rows, user);
    assert(listed[rows.len() as int] == user);
    assert forall|i: int| 0 <= i < listed.len() && listed[i] == user implies i == rows.len() by {
        if i < rows.len() {
            assert(rows[i].id == id);
        }
    }
}

/// The digits of a number are decimal digits, and there is one at least.
pub proof fn lemma_digits_text_shape(n: nat)
    ensures
        digits_text(n).len() >= 1,
        forall|i: int| 0 <= i < digits_text(n).len() ==> '0' <= #[trigger] digits_text(n)[i] <= '9',
    decreases n,
{
    if n >= 10 {
        lemma_digits_text_shape(n / 10);
    }
}

/// Two numbers with the same digits are one number.
pub proof fn lemma_digits_text_is_injective(a: nat, b: nat)
    requires
        digits_text(a) == digits_text(b),
    ensures
        a == b,
    decreases a,
{
    lemma_digits_text_shape(a / 10);
    lemma_digits_text_shape(b / 10);
    if a < 10 && b < 10 {
        assert(digits_text(a)[0] == digit_char(a as int));
        assert(digits_text(b)[0] == digit_char(b as int));
    } else if a >= 10 && b >= 10 {
        let front_a = digits_text(a / 10);
        let front_b = digits_text(b / 10);
        assert(front_a.push(digit_char((a % 10) as int)).drop_last() =~= front_a);
        assert(front_b.push(digit_char((b % 10) as int)).drop_last() =~= front_b);
        assert(digits_text(a).last() == digit_char((a % 10) as int));
        assert(digits_text(b).last() == digit_char((b % 10) as int));
        lemma_digits_text_is_injective(a / 10, b / 10);
    }
}

/// Two integers with the same decimal text are one integer.
pub proof fn lemma_decimal_text_is_injective(a: int, b: int)
    requires
        decimal_text(a) == decimal_text(b),
    ensures
        a == b,
{
    lemma_digits_text_shape(if a < 0 { (-a) as nat } else { a as nat });
    lemma_digits_text_shape(if b < 0 { (-b) as nat } else { b as nat });
    if a < 0 && b < 0 {
        let digits_a = digits_text((-a) as nat);
        let digits_b = digits_text((-b) as nat);
        assert((seq!['-'] + digits_a).skip(1) =~= digits_a);
        assert((seq!['-'] + digits_b).skip(1) =~= digits_b);
        lemma_digits_text_is_injective((-a) as nat, (-b) as nat);
    } else if a >= 0 && b >= 0 {
        lemma_digits_text_is_injective(a as nat, b as nat);
    } else if a < 0 {
        assert(decimal_text(a)[0] == '-');
        assert(decimal_text(b)[0] == digits_text(b as nat)[0]);
    } else {
        assert(decimal_text(b)[0] == '-');
        assert(decimal_text(a)[0] == digits_text(a as nat)[0]);
    }
}

/// The decimal text of an integer holds no comma.
proof fn lemma_decimal_text_has_no_comma(value: int)
    ensures
        decimal_text(value).len() >= 1,
        forall|i: int| 0 <= i < decimal_text(value).len() ==> #[trigger] decimal_text(value)[i] != ',',
{
    lemma_digits_text_shape(if value < 0 { (-value) as nat } else { value as nat });
    if value < 0 {
        let digits = digits_text((-value) as nat);
        assert forall|i: int| 0 <= i < decimal_text(value).len() implies #[trigger] decimal_text(
            value,
        )[i] != ',' by {
            if i > 0 {
                assert(decimal_text(value)[i] == digits[i - 1]);
            }
        }
    }
}

/// The body of a user tells its id: two users whose JSON objects are the
/// same text have the same id.
pub proof fn lemma_user_text_tells_id(first: UserRecord, second: UserRecord)
    requires
        user_text(first) == user_text(second),
    ensures
        first.id == second.id,
{
    reveal_strlit("{\"id\":");
    reveal_strlit(",\"name\":");
    let one = decimal_text(first.id);
    let two = decimal_text(second.id);
    lemma_decimal_text_has_no_comma(first.id);
    lemma_decimal_text_has_no_comma(second.id);
    let text_one = user_text(first);
    let text_two = user_text(second);
    // Behind the six characters of the head stands the id, and behind the id
    // a comma.
    assert forall|i: int| 0 <= i < one.len() implies text_one[6 + i] == one[i] by {}
    assert forall|i: int| 0 <= i < two.len() implies text_two[6 + i] == two[i] by {}
    assert(text_one[6 + one.len() as int] == ',');
    assert(text_two[6 + two.len() as int] == ',');
    if one.len() < two.len() {
        assert(text_two[6 + one.len() as int] == two[one.len() as int]);
    } else if two.len() < one.len() {
        assert(text_one[6 + two.len() as int] == one[two.len() as int]);
    } else {
        assert forall|i: int| 0 <= i < one.len() implies one[i] == two[i] by {
            assert(text_one[6 + i] == text_two[6 + i]);
        }
        assert(one =~= two);
        lemma_decimal_text_is_injective(first.id, second.id);
    }
}

/// No two creations are answered with the same id: where storage gave each
/// of two inserts, one after the other, an id that no row of the table held
/// at that time, the two users have different ids, and the two responses
/// differ.
pub proof fn lemma_creations_get_distinct_ids(
    rows: Seq<UserRecord>,
    first_name: Seq<char>,
    first_email: Seq<char>,
    first_id: int,
    second_name: Seq<char>,
    second_email: Seq<char>,
    second_id: int,
)
    requires
        !holds_id(rows, first_id),
        !holds_id(after_insert(rows, created_user(first_name, first_email, first_id)), second_id),
    ensures
        ({
            let first = created_user(first_name, first_email, first_id);
            let second = created_user(second_name, second_email, second_id);
            &&& first.id != second.id
            &&& user_response(CREATED as int, first) != user_response(CREATED as int, second)
        }),
{
    let first = created_user(first_name, first_email, first_id);
    let second = created_user(second_name, second_email, second_id);
    let table = after_insert(rows, first);
    assert(table[rows.len() as int].id == first_id);
    if user_text(first) == user_text(second) {
        lemma_user_text_tells_id(first, second);
    }
}

} // verus!
