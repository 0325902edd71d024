//! The HTTP trigger's route table: which NATS subject each function is
//! reached at, read from a JSON configuration object.

use vstd::prelude::*;
use dashmap::DashMap;

verus! {

#[verifier::external_type_specification]
#[verifier::external_body]
#[verifier::reject_recursive_types(K)]
#[verifier::reject_recursive_types(V)]
#[verifier::reject_recursive_types(S)]
pub struct ExDashMap<K, V, S>(DashMap<K, V, S>);

#[verifier::external_type_specification]
#[verifier::external_body]
pub struct ExJsonError(serde_json::Error);

/// The function-to-subject pairs that a concurrent map holds.
pub uninterp spec fn dashmap_routes(map: DashMap<String, String>) -> Map<Seq<char>, Seq<char>>;

/// Calls `DashMap::new`. Claimed: the new map is empty.
#[verifier::external_body]
fn empty_dashmap() -> (routes: DashMap<String, String>)
    ensures
        dashmap_routes(routes).is_empty(),
{
    DashMap::new()
}

/// Calls `DashMap::insert`. Claimed: afterwards the map holds `subject` for
/// `function` and is otherwise unchanged (the crate's source replaces the
/// value of an occupied entry and fills a vacant one).
#[verifier::external_body]
fn dashmap_insert(map: &mut DashMap<String, String>, function: String, subject: String)
    ensures
        dashmap_routes(*final(map)) == dashmap_routes(*old(map)).insert(function@, subject@),
{
    map.insert(function, subject);
}

/// Calls `DashMap::get` and clones the value found. Claimed: the value is the
/// one the map holds for `function`, and nothing is found exactly when the
/// map holds none.
#[verifier::external_body]
fn dashmap_get(map: &DashMap<String, String>, function: &str) -> (subject: Option<String>)
    ensures
        subject is Some <==> dashmap_routes(*map).contains_key(function@),
        subject matches Some(s) ==> s@ == dashmap_routes(*map)[function@],
{
    match map.get(function) {
        Some(entry) => Some(entry.value().clone()),
        None => None,
    }
}

/// The pairs of a JSON object whose values are all strings, in the order of
/// their keys, or `None` where the text is no such object.
pub uninterp spec fn json_string_map(text: Seq<char>) -> Option<Seq<(Seq<char>, Seq<char>)>>;

/// Calls `serde_json::from_str` for a map from strings to strings (a
/// `BTreeMap`, whose pairs come out in the order of their keys). Claimed:
/// success and the pairs depend on the text alone. Not claimed: which texts
/// are accepted, and which pair is kept of two with the same key.
#[verifier::external_body]
fn parse_json_string_map(text: &str) -> (r: Result<Vec<(String, String)>, serde_json::Error>)
    ensures
        r is Ok <==> json_string_map(text@) is Some,
        r matches Ok(pairs) ==> pair_views(pairs@) == json_string_map(text@).unwrap(),
{
    match serde_json::from_str::<std::collections::BTreeMap<String, String>>(text) {
        Ok(map) => Ok(map.into_iter().collect()),
        Err(e) => Err(e),
    }
}

/// The pairs of strings, as character sequences.
pub open spec fn pair_views(pairs: Seq<(String, String)>) -> Seq<(Seq<char>, Seq<char>)> {
    pairs.map_values(|p: (String, String)| (p.0@, p.1@))
}

/// The map that inserting `pairs` one after the other into an empty map
/// gives: a later pair replaces an earlier one with the same key.
pub open spec fn map_of_pairs(pairs: Seq<(Seq<char>, Seq<char>)>) -> Map<Seq<char>, Seq<char>>
    decreases pairs.len(),
{
    if pairs.len() == 0 {
        Map::empty()
    } else {
        map_of_pairs(pairs.drop_last()).insert(pairs.last().0, pairs.last().1)
    }
}

/// A function that a pair names is routed to the subject of the last pair
/// that names it.
pub proof fn route_is_last_pair(pairs: Seq<(Seq<char>, Seq<char>)>, function: Seq<char>, i: int)
    requires
        0 <= i < pairs.len(),
        pairs[i].0 == function,
        forall|j: int| i < j < pairs.len() ==> (#[trigger] pairs[j]).0 != function,
    ensures
        map_of_pairs(pairs).contains_key(function),
        map_of_pairs(pairs)[function] == pairs[i].1,
    decreases pairs.len(),
{
    if i < pairs.len() - 1 {
        let init = pairs.drop_last();
        assert(pairs[pairs.len() - 1].0 != function);
        assert forall|j: int| i < j < init.len() implies (#[trigger] init[j]).0 != function by {
            assert(init[j] == pairs[j]);
        }
        route_is_last_pair(init, function, i);
    }
}

/// A function that no pair names is not routed.
pub proof fn unnamed_function_is_unrouted(pairs: Seq<(Seq<char>, Seq<char>)>, function: Seq<char>)
    requires
        forall|j: int| 0 <= j < pairs.len() ==> (#[trigger] pairs[j]).0 != function,
    ensures
        !map_of_pairs(pairs).contains_key(function),
    decreases pairs.len(),
{
    if pairs.len() > 0 {
        let init = pairs.drop_last();
        assert(pairs[pairs.len() - 1].0 != function);
        assert forall|j: int| 0 <= j < init.len() implies (#[trigger] init[j]).0 != function by {
            assert(init[j] == pairs[j]);
        }
        unnamed_function_is_unrouted(init, function);
    }
}

/// Why a route configuration could not be read.
pub enum RouteConfigError {
    /// The text is not a JSON object whose values are all strings.
    Json(serde_json::Error),
}

/// The subjects of the functions that the trigger serves.
pub struct RouteTable {
    routes: DashMap<String, String>,
}

impl View for RouteTable {
    type V = Map<Seq<char>, Seq<char>>;

    closed spec fn view(&self) -> Map<Seq<char>, Seq<char>> {
        dashmap_routes(self.routes)
    }
}

impl RouteTable {
    /// A table with the given pairs of function and subject, inserted in order.
    pub fn from_pairs(pairs: Vec<(String, String)>) -> (table: RouteTable)
        ensures
            table@ == map_of_pairs(pair_views(pairs@)),
    {
        let mut routes = empty_dashmap();
        let ghost all = pair_views(pairs@);
        assert(all.take(0) =~= Seq::<(Seq<char>, Seq<char>)>::empty());
        for i in 0..pairs.len()
            invariant
                all == pair_views(pairs@),
                dashmap_routes(routes) == map_of_pairs(all.take(i as int)),
        {
            let function = pairs[i].0.clone();
            let subject = pairs[i].1.clone();
            assert(all.take(i + 1).drop_last() =~= all.take(i as int));
            dashmap_insert(&mut routes, function, subject);
        }
        assert(all.take(pairs.len() as int) =~= all);
        RouteTable { routes }
    }

    /// Reads the JSON object of a configuration file: each key is a function,
    /// its value the subject of that function.
    pub fn from_config(text: &str) -> (r: Result<RouteTable, RouteConfigError>)
        ensures
            r is Ok <==> json_string_map(text@) is Some,
            r matches Ok(table) ==> table@ == map_of_pairs(json_string_map(text@).unwrap()),
    {
        match parse_json_string_map(text) {
            Ok(pairs) => Ok(RouteTable::from_pairs(pairs)),
            Err(e) => Err(RouteConfigError::Json(e)),
        }
    }

    /// The subject at which `function` is reached, if the table has it.
    pub fn subject_for(&self, function: &str) -> (subject: Option<String>)
        ensures
            subject is Some <==> self@.contains_key(function@),
            subject matches Some(s) ==> s@ == self@[function@],
    {
        dashmap_get(&self.routes, function)
    }
}

} // verus!
