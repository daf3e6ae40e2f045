//! Reading and writing the test-case store: a JSON object whose keys are
//! question identifiers and whose values are arrays of test-case objects
//! with the string fields `description`, `input` and `expected_output`.
//! Unknown extra fields in a case object are ignored; a malformed requested
//! entry fails the lookup.  Parsing and printing are serde_json's; what the
//! engine reads out of a parsed document, and what it puts into one before
//! printing, is decided here.

use vstd::prelude::*;

use crate::report::{TestCase, TestCaseView};

verus! {

/// Why the store produced no test cases for a run.
#[derive(Debug, Clone, PartialEq, Eq)]
pub enum StoreError {
    /// The store has no entry for the requested question identifier.
    NotFound,
    /// The store text, or the requested entry, is not in the backing format.
    Malformed { message: String },
}

/// Mathematical image of a [`StoreError`].
pub enum StoreErrorView {
    NotFound,
    Malformed { message: Seq<char> },
}

impl View for StoreError {
    type V = StoreErrorView;

    open spec fn view(&self) -> StoreErrorView {
        match self {
            StoreError::NotFound => StoreErrorView::NotFound,
            StoreError::Malformed { message } => (StoreErrorView::Malformed { message: message@ }),
        }
    }
}

#[verifier::external_type_specification]
#[verifier::external_body]
pub struct ExJsonValue(serde_json::Value);

#[verifier::external_type_specification]
#[verifier::external_body]
#[verifier::reject_recursive_types(K)]
#[verifier::reject_recursive_types(V)]
pub struct ExJsonMap<K, V>(serde_json::Map<K, V>);

#[verifier::external_type_specification]
#[verifier::external_body]
pub struct ExJsonError(serde_json::Error);

/// The entries of a parsed JSON value when it is an object, keyed by the
/// keys' text.
pub uninterp spec fn json_object(v: serde_json::Value) -> Option<
    Map<Seq<char>, serde_json::Value>,
>;

/// The elements of a parsed JSON value when it is an array.
pub uninterp spec fn json_array(v: serde_json::Value) -> Option<Seq<serde_json::Value>>;

/// The text of a parsed JSON value when it is a string.
pub uninterp spec fn json_string(v: serde_json::Value) -> Option<Seq<char>>;

/// The entries a JSON object map holds, keyed by the keys' text.
pub uninterp spec fn json_entries(m: serde_json::Map<String, serde_json::Value>) -> Map<
    Seq<char>,
    serde_json::Value,
>;

/// The pretty-printed document of a JSON value.  With serde_json's default
/// map representation (a B-tree ordered by key) the text is a function of
/// the value alone.
pub uninterp spec fn json_text(v: serde_json::Value) -> Seq<char>;

/// The document a text parses to, when the text is one JSON document:
/// parsing is a function of the text alone.
pub uninterp spec fn parsed_doc(text: Seq<char>) -> Option<serde_json::Value>;

/// Relies on `serde_json::from_str::<Value>`: parses the store text as one
/// JSON document — a function of the text alone — or reports why it is not
/// one.
#[verifier::external_body]
fn parse_json(text: &str) -> (r: Result<serde_json::Value, serde_json::Error>)
    ensures
        r matches Ok(v) ==> parsed_doc(text@) == Some(v),
        (r is Err) == (parsed_doc(text@) is None),
{
    serde_json::from_str(text)
}

/// Relies on `serde_json::Error`'s `Display`: a description of the failure.
#[verifier::external_body]
fn json_error_text(e: &serde_json::Error) -> String {
    e.to_string()
}

/// Relies on `serde_json::Value::as_object`: `Some` exactly on a JSON
/// object, returning its entry map.
#[verifier::external_body]
fn value_as_object<'a>(v: &'a serde_json::Value) -> (r: Option<
    &'a serde_json::Map<String, serde_json::Value>,
>)
    ensures
        r matches Some(m) ==> json_object(*v) == Some(json_entries(*m)),
        r is None ==> json_object(*v) is None,
{
    v.as_object()
}

/// Relies on `serde_json::Value::as_array`: `Some` exactly on a JSON array,
/// returning its elements.
#[verifier::external_body]
fn value_as_array<'a>(v: &'a serde_json::Value) -> (r: Option<&'a Vec<serde_json::Value>>)
    ensures
        r matches Some(a) ==> json_array(*v) == Some(a@),
        r is None ==> json_array(*v) is None,
{
    v.as_array()
}

/// Relies on `serde_json::Value::as_str`: `Some` exactly on a JSON string,
/// returning its text.
#[verifier::external_body]
fn value_as_str<'a>(v: &'a serde_json::Value) -> (r: Option<&'a str>)
    ensures
        r matches Some(s) ==> json_string(*v) == Some(s@),
        r is None ==> json_string(*v) is None,
{
    v.as_str()
}

/// Relies on `serde_json::Map::get`: the value stored under a key equal to
/// `key`'s text, or `None` where the map has no such key.
#[verifier::external_body]
fn map_get<'a>(m: &'a serde_json::Map<String, serde_json::Value>, key: &str) -> (r: Option<
    &'a serde_json::Value,
>)
    ensures
        (r is Some) == json_entries(*m).dom().contains(key@),
        r matches Some(v) ==> *v == json_entries(*m)[key@],
{
    m.get(key)
}

/// Relies on `serde_json::Map::new`: a map with no entries.
#[verifier::external_body]
fn map_new() -> (m: serde_json::Map<String, serde_json::Value>)
    ensures
        json_entries(m).dom() =~= Set::<Seq<char>>::empty(),
{
    serde_json::Map::new()
}

/// Relies on `serde_json::Map::insert`: stores `value` under `key`,
/// replacing any previous entry with that key.
#[verifier::external_body]
fn map_insert(
    m: &mut serde_json::Map<String, serde_json::Value>,
    key: String,
    value: serde_json::Value,
)
    ensures
        json_entries(*final(m)) == json_entries(*old(m)).insert(key@, value),
{
    m.insert(key, value);
}

/// Relies on the `serde_json::Value::String` constructor, read back by
/// `as_str`: wraps text as a JSON string value.
#[verifier::external_body]
fn value_of_string(s: String) -> (v: serde_json::Value)
    ensures
        json_string(v) == Some(s@),
{
    serde_json::Value::String(s)
}

/// Relies on the `serde_json::Value::Array` constructor, read back by
/// `as_array`: wraps elements as a JSON array value.
#[verifier::external_body]
fn value_of_array(items: Vec<serde_json::Value>) -> (v: serde_json::Value)
    ensures
        json_array(v) == Some(items@),
{
    serde_json::Value::Array(items)
}

/// Relies on the `serde_json::Value::Object` constructor, read back by
/// `as_object`: wraps an entry map as a JSON object value.
#[verifier::external_body]
fn value_of_map(m: serde_json::Map<String, serde_json::Value>) -> (v: serde_json::Value)
    ensures
        json_object(v) == Some(json_entries(m)),
{
    serde_json::Value::Object(m)
}

/// Relies on `serde_json::Value::as_object_mut` and `Map::insert`: replaces
/// the entry at `key` when the value is an object, and reports whether it
/// was one.
#[verifier::external_body]
fn object_insert(v: &mut serde_json::Value, key: String, item: serde_json::Value) -> (ok: bool)
    ensures
        ok == (json_object(*old(v)) is Some),
        ok ==> json_object(*final(v)) == Some(json_object(*old(v)).unwrap().insert(key@, item)),
        !ok ==> *final(v) == *old(v),
{
    match v.as_object_mut() {
        Some(m) => {
            m.insert(key, item);
            true
        },
        None => false,
    }
}

/// Relies on `serde_json::to_string_pretty`: the pretty-printed document of
/// a value.  Serialization fails only when a `Serialize` impl fails or a
/// map's key is not a string; `Value`'s own impl never fails and its maps
/// are keyed by `String`, so on a `Value` the call always succeeds.
#[verifier::external_body]
fn to_pretty(v: &serde_json::Value) -> (r: Result<String, serde_json::Error>)
    ensures
        r is Ok,
        r matches Ok(s) ==> s@ == json_text(*v),
{
    serde_json::to_string_pretty(v)
}

/// The text of a string field of a case object, when present and a string.
pub open spec fn case_field(
    entry: Map<Seq<char>, serde_json::Value>,
    key: Seq<char>,
) -> Option<Seq<char>> {
    if entry.dom().contains(key) {
        json_string(entry[key])
    } else {
        None
    }
}

/// The test case an array element describes: an object whose three case
/// fields are all strings.  Further fields are ignored.
pub open spec fn case_of_value(v: serde_json::Value) -> Option<TestCaseView> {
    match json_object(v) {
        None => None,
        Some(entry) => match (
            case_field(entry, "description"@),
            case_field(entry, "input"@),
            case_field(entry, "expected_output"@),
        ) {
            (Some(d), Some(i), Some(e)) => Some(
                TestCaseView { description: d, input: i, expected_output: e },
            ),
            _ => None,
        },
    }
}

/// The test cases a JSON array holds, when every element is well formed.
pub open spec fn cases_of_array(vs: Seq<serde_json::Value>) -> Option<Seq<TestCaseView>>
    decreases vs.len(),
{
    if vs.len() == 0 {
        Some(Seq::empty())
    } else {
        match (cases_of_array(vs.drop_last()), case_of_value(vs.last())) {
            (Some(rest), Some(c)) => Some(rest.push(c)),
            _ => None,
        }
    }
}

/// An array with one malformed element holds no case list.
proof fn lemma_cases_of_array_none(vs: Seq<serde_json::Value>, i: int)
    requires
        0 <= i < vs.len(),
        case_of_value(vs[i]) is None,
    ensures
        cases_of_array(vs) is None,
    decreases vs.len(),
{
    if i < vs.len() - 1 {
        lemma_cases_of_array_none(vs.drop_last(), i);
    }
}

/// What looking one question up in a parsed store document yields: its
/// entry's cases; `NotFound` where the document has no such key; malformed
/// where the document is no object, the entry no array, or a case no
/// well-formed object.
pub open spec fn lookup_in_value(root: serde_json::Value, q: Seq<char>) -> Result<
    Seq<TestCaseView>,
    StoreErrorView,
> {
    match json_object(root) {
        None => Err(StoreErrorView::Malformed { message: "test case store is not a JSON object"@ }),
        Some(entries) => {
            if !entries.dom().contains(q) {
                Err(StoreErrorView::NotFound)
            } else {
                match json_array(entries[q]) {
                    None => Err(
                        StoreErrorView::Malformed {
                            message: "question entry is not a JSON array"@,
                        },
                    ),
                    Some(vs) => match cases_of_array(vs) {
                        None => Err(
                            StoreErrorView::Malformed { message: "malformed test case entry"@ },
                        ),
                        Some(cs) => Ok(cs),
                    },
                }
            }
        },
    }
}

/// Reads one string field out of a case object's entry map.
fn read_case_field<'a>(
    m: &'a serde_json::Map<String, serde_json::Value>,
    key: &str,
) -> (r: Option<&'a str>)
    ensures
        r matches Some(s) ==> case_field(json_entries(*m), key@) == Some(s@),
        r is None ==> case_field(json_entries(*m), key@) is None,
{
    match map_get(m, key) {
        Some(v) => value_as_str(v),
        None => None,
    }
}

/// Reads the test cases out of one question entry's array.
fn cases_from_array(arr: &Vec<serde_json::Value>) -> (r: Result<Vec<TestCase>, StoreError>)
    ensures
        r matches Ok(cases) ==> cases_of_array(arr@) == Some(
            cases@.map_values(|c: TestCase| c@),
        ),
        r is Err ==> cases_of_array(arr@) is None,
        r matches Err(e) ==> e@ == (StoreErrorView::Malformed {
            message: "malformed test case entry"@,
        }),
{
    let mut cases: Vec<TestCase> = Vec::new();
    let mut i: usize = 0;
    proof {
        assert(arr@.take(0) =~= Seq::<serde_json::Value>::empty());
        assert(cases@.map_values(|c: TestCase| c@) =~= Seq::<TestCaseView>::empty());
    }
    while i < arr.len()
        invariant
            0 <= i <= arr@.len(),
            cases@.len() == i,
            cases_of_array(arr@.take(i as int)) == Some(cases@.map_values(|c: TestCase| c@)),
        decreases arr@.len() - i,
    {
        let ghost prior = cases@.map_values(|c: TestCase| c@);
        let case = match value_as_object(&arr[i]) {
            None => None,
            Some(m) => match read_case_field(m, "description") {
                None => None,
                Some(d) => match read_case_field(m, "input") {
                    None => None,
                    Some(inp) => match read_case_field(m, "expected_output") {
                        None => None,
                        Some(e) => Some(
                            TestCase {
                                description: String::from_str(d),
                                input: String::from_str(inp),
                                expected_output: String::from_str(e),
                            },
                        ),
                    },
                },
            },
        };
        match case {
            None => {
                proof {
                    lemma_cases_of_array_none(arr@, i as int);
                }
                return Err(
                    StoreError::Malformed {
                        message: String::from_str("malformed test case entry"),
                    },
                );
            },
            Some(c) => {
                proof {
                    assert(case_of_value(arr@[i as int]) == Some(c@));
                }
                let ghost cv = c@;
                cases.push(c);
                proof {
                    assert(arr@.take(i + 1).drop_last() =~= arr@.take(i as int));
                    assert(arr@.take(i + 1).last() == arr@[i as int]);
                    assert(cases@.map_values(|c: TestCase| c@) =~= prior.push(cv));
                }
            },
        }
        i = i + 1;
    }
    proof {
        assert(arr@.take(arr@.len() as int) =~= arr@);
    }
    Ok(cases)
}

/// Looks one question up in a parsed store document: exactly
/// [`lookup_in_value`], executed.
pub fn cases_from_value(root: &serde_json::Value, question_id: &str) -> (r: Result<
    Vec<TestCase>,
    StoreError,
>)
    ensures
        r matches Ok(cases) ==> lookup_in_value(*root, question_id@) == Ok::<
            Seq<TestCaseView>,
            StoreErrorView,
        >(cases@.map_values(|c: TestCase| c@)),
        r matches Err(e) ==> lookup_in_value(*root, question_id@) == Err::<
            Seq<TestCaseView>,
            StoreErrorView,
        >(e@),
{
    match value_as_object(root) {
        None => Err(
            StoreError::Malformed {
                message: String::from_str("test case store is not a JSON object"),
            },
        ),
        Some(entries) => match map_get(entries, question_id) {
            None => Err(StoreError::NotFound),
            Some(entry) => match value_as_array(entry) {
                None => Err(
                    StoreError::Malformed {
                        message: String::from_str("question entry is not a JSON array"),
                    },
                ),
                Some(arr) => cases_from_array(arr),
            },
        },
    }
}

/// Loads the test cases of one question from the store text: exactly the
/// lookup of [`lookup_in_value`] in this text's own parsed document.  A
/// text that is no JSON document fails as malformed with the parser's
/// words.
pub fn get_cases_from_text(text: &str, question_id: &str) -> (r: Result<Vec<TestCase>, StoreError>)
    ensures
        parsed_doc(text@) matches Some(root) ==> (r matches Ok(cases) ==> lookup_in_value(
            root,
            question_id@,
        ) == Ok::<Seq<TestCaseView>, StoreErrorView>(cases@.map_values(|c: TestCase| c@))) && (
        r matches Err(e) ==> lookup_in_value(root, question_id@) == Err::<
            Seq<TestCaseView>,
            StoreErrorView,
        >(e@)),
        parsed_doc(text@) is None ==> (r matches Err(e) && e@ matches StoreErrorView::Malformed {
            ..
        }),
{
    match parse_json(text) {
        Err(e) => Err(StoreError::Malformed { message: json_error_text(&e) }),
        Ok(root) => cases_from_value(&root, question_id),
    }
}

/// Builds the JSON array value of a question's test cases: one object per
/// case, in order, carrying the three case fields.
fn cases_value(cases: &Vec<TestCase>) -> (v: serde_json::Value)
    ensures
        json_array(v) matches Some(vs) && cases_of_array(vs) == Some(
            cases@.map_values(|c: TestCase| c@),
        ),
{
    let mut items: Vec<serde_json::Value> = Vec::new();
    let mut i: usize = 0;
    proof {
        assert(items@ =~= Seq::<serde_json::Value>::empty());
        assert(cases@.map_values(|c: TestCase| c@).take(0) =~= Seq::<TestCaseView>::empty());
    }
    while i < cases.len()
        invariant
            0 <= i <= cases@.len(),
            items@.len() == i,
            cases_of_array(items@) == Some(cases@.map_values(|c: TestCase| c@).take(i as int)),
        decreases cases@.len() - i,
    {
        let ghost prior_items = items@;
        let mut m = map_new();
        map_insert(&mut m, String::from_str("description"), value_of_string(cases[i].description.clone()));
        map_insert(&mut m, String::from_str("input"), value_of_string(cases[i].input.clone()));
        map_insert(
            &mut m,
            String::from_str("expected_output"),
            value_of_string(cases[i].expected_output.clone()),
        );
        let obj = value_of_map(m);
        proof {
            reveal_strlit("description");
            reveal_strlit("input");
            reveal_strlit("expected_output");
            assert("description"@.len() == 11);
            assert("input"@.len() == 5);
            assert("expected_output"@.len() == 15);
            assert(case_of_value(obj) == Some(cases@[i as int]@));
        }
        items.push(obj);
        proof {
            let mapped = cases@.map_values(|c: TestCase| c@);
            assert(items@.drop_last() =~= prior_items);
            assert(mapped.take(i + 1).drop_last() =~= mapped.take(i as int));
            assert(cases_of_array(items@) == Some(mapped.take(i + 1)));
        }
        i = i + 1;
    }
    proof {
        assert(cases@.map_values(|c: TestCase| c@).take(cases@.len() as int) =~= cases@.map_values(
            |c: TestCase| c@,
        ));
    }
    value_of_array(items)
}

/// The entry map an update of the store text starts from: the old
/// document's entries where the text parses to a JSON object, a fresh
/// empty map otherwise.
pub open spec fn base_entries(text: Seq<char>) -> Map<Seq<char>, serde_json::Value> {
    match parsed_doc(text) {
        Some(doc) => match json_object(doc) {
            Some(entries) => entries,
            None => Map::empty(),
        },
        None => Map::empty(),
    }
}

/// The store text after replacing one question's entry: the old text is
/// parsed — a text that is no JSON object starts a fresh store — the
/// question's entry becomes the given cases, and the document is
/// pretty-printed.  The written document's entries are the old text's
/// entries with exactly the one key replaced: every other question's
/// stored value is untouched, and looking the edited question up in the
/// written document yields exactly the given cases.
pub fn updated_store_text(text: &str, question_id: &str, cases: &Vec<TestCase>) -> (s: String)
    ensures
        exists|root: serde_json::Value, entry: serde_json::Value|
            #![trigger json_text(root), json_array(entry)]
            s@ == json_text(root) && json_object(root) == Some(
                base_entries(text@).insert(question_id@, entry),
            ) && (json_array(entry) matches Some(vs) && cases_of_array(vs) == Some(
                cases@.map_values(|c: TestCase| c@),
            )) && lookup_in_value(root, question_id@) == Ok::<Seq<TestCaseView>, StoreErrorView>(
                cases@.map_values(|c: TestCase| c@),
            ),
{
    let entry = cases_value(cases);
    let mut root = match parse_json(text) {
        Ok(v) => {
            let is_object = value_as_object(&v).is_some();
            if is_object {
                v
            } else {
                value_of_map(map_new())
            }
        },
        Err(_) => value_of_map(map_new()),
    };
    proof {
        assert(json_object(root).unwrap() =~= base_entries(text@));
    }
    let inserted = object_insert(&mut root, String::from_str(question_id), entry);
    proof {
        assert(inserted);
    }
    match to_pretty(&root) {
        Ok(s) => {
            proof {
                assert(lookup_in_value(root, question_id@) == Ok::<
                    Seq<TestCaseView>,
                    StoreErrorView,
                >(cases@.map_values(|c: TestCase| c@)));
            }
            s
        },
        Err(_) => {
            proof {
                assert(false);
            }
            String::new()
        },
    }
}

/// Pairs up the parallel description, input and expected-output lists of an
/// edit into test cases, stopping at the shortest list.
pub fn build_cases(descriptions: Vec<String>, inputs: Vec<String>, expecteds: Vec<String>) -> (cases:
    Vec<TestCase>)
    ensures
        cases@.len() == vstd::math::min(
            vstd::math::min(descriptions@.len() as int, inputs@.len() as int),
            expecteds@.len() as int,
        ),
        forall|i: int|
            0 <= i < cases@.len() ==> cases@[i]@.description == descriptions@[i]@ && cases@[i]@.input
                == inputs@[i]@ && cases@[i]@.expected_output == expecteds@[i]@,
{
    let mut n: usize = descriptions.len();
    if inputs.len() < n {
        n = inputs.len();
    }
    if expecteds.len() < n {
        n = expecteds.len();
    }
    let mut cases: Vec<TestCase> = Vec::new();
    let mut i: usize = 0;
    while i < n
        invariant
            0 <= i <= n,
            n <= descriptions@.len(),
            n <= inputs@.len(),
            n <= expecteds@.len(),
            cases@.len() == i,
            forall|j: int|
                0 <= j < i ==> cases@[j]@.description == descriptions@[j]@ && cases@[j]@.input
                    == inputs@[j]@ && cases@[j]@.expected_output == expecteds@[j]@,
        decreases n - i,
    {
        cases.push(
            TestCase {
                description: descriptions[i].clone(),
                input: inputs[i].clone(),
                expected_output: expecteds[i].clone(),
            },
        );
        i = i + 1;
    }
    cases
}

} // verus!
