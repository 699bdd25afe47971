use vstd::prelude::*;
use crate::identity::{UID, parse_uid, parsed_uid, lemma_decimal_uid_parses};
use crate::route::direction::Direction;
use crate::text::{contains_str, decimal_text, has_substring, lowercase, str_equal, string_of, to_lowercase};
use crate::timeframe::Frame;
use crate::client::error::{Error, Result};

verus! {

/// What a command refers to: nothing, or an area, route or thing by its UID.
#[derive(Debug, Clone, Copy, PartialEq, Eq, Structural)]
pub enum Target {
    Empty,
    Area(UID),
    Route(UID),
    Thing(UID),
}

/// The kinds of target that a search may look for.
#[derive(Debug, PartialEq, Eq, Clone, Copy, Structural)]
pub enum TargetType {
    Area,
    Route,
    Thing,
}

impl Target {
    pub fn all() -> (r: [TargetType; 3])
        ensures
            r@ == seq![TargetType::Area, TargetType::Route, TargetType::Thing],
    {
        TargetType::all()
    }
}

impl TargetType {
    pub fn all() -> (r: [Self; 3])
        ensures
            r@ == seq![TargetType::Area, TargetType::Route, TargetType::Thing],
    {
        let r = [Self::Area, Self::Route, Self::Thing];
        assert(r@ =~= seq![TargetType::Area, TargetType::Route, TargetType::Thing]);
        r
    }

    /// Returns boolean: (area, route, thing): whether each kind occurs in `types`.
    pub fn split(types: &[Self]) -> (r: (bool, bool, bool))
        ensures
            r.0 == types@.contains(TargetType::Area),
            r.1 == types@.contains(TargetType::Route),
            r.2 == types@.contains(TargetType::Thing),
    {
        let mut area = false;
        let mut route = false;
        let mut thing = false;
        let mut i: usize = 0;
        while i < types.len()
            invariant
                i <= types@.len(),
                area == types@.subrange(0, i as int).contains(TargetType::Area),
                route == types@.subrange(0, i as int).contains(TargetType::Route),
                thing == types@.subrange(0, i as int).contains(TargetType::Thing),
            decreases types@.len() - i,
        {
            let ghost prefix = types@.subrange(0, i as int);
            let t = types[i];
            assert(types@.subrange(0, i + 1) =~= prefix.push(t));
            match t {
                Self::Area => area = true,
                Self::Route => route = true,
                Self::Thing => thing = true,
            }
            proof {
                let next = prefix.push(t);
                assert(next[i as int] == t);
                assert forall|k: TargetType| #[trigger] next.contains(k) <==> (prefix.contains(k) || k == t) by {
                    if next.contains(k) {
                        let j = choose|j: int| 0 <= j < next.len() && next[j] == k;
                        if j < i {
                            assert(prefix[j] == k);
                        }
                    }
                    if prefix.contains(k) {
                        let j = choose|j: int| 0 <= j < prefix.len() && prefix[j] == k;
                        assert(next[j] == k);
                    }
                }
            }
            i = i + 1;
        }
        assert(types@.subrange(0, types@.len() as int) =~= types@);
        (area, route, thing)
    }
}

/// A route that leaves the viewer's area, as a target search sees it: the route's UID, the direction,
/// name, description and keywords of its end in this area, and the name under which the area lists it.
pub struct RouteSight {
    pub uid: UID,
    pub direction: Direction,
    pub end_name: String,
    pub end_description: Option<String>,
    pub end_keywords: Vec<String>,
    pub indexed_name: String,
}

/// A thing in the viewer's area, as a target search sees it: its UID, name, description and keywords,
/// and the name under which the area lists it.
pub struct ThingSight {
    pub uid: UID,
    pub name: String,
    pub description: Option<String>,
    pub keywords: Vec<String>,
    pub indexed_name: String,
}

/// What the viewer perceives around it, as far as commands read it: the current frame, the viewer's own
/// UID, its area, the routes that leave that area and the things that occupy it, in the area's order.
pub struct Surroundings {
    pub frame: Frame,
    pub viewer_uid: UID,
    pub area_uid: UID,
    pub area_name: String,
    pub area_description: Option<String>,
    pub routes: Vec<RouteSight>,
    pub occupants: Vec<ThingSight>,
}

/// A search result as plain values: the name found, the target, and whether the match is exact.
pub open spec fn found_view(v: Seq<(String, Target, bool)>) -> Seq<(Seq<char>, Target, bool)> {
    v.map_values(|x: (String, Target, bool)| (x.0@, x.1, x.2))
}

/// Whether some keyword contains `p`.
pub open spec fn any_keyword_has(keywords: Seq<String>, p: Seq<char>) -> bool {
    exists|j: int| 0 <= j < keywords.len() && has_substring(#[trigger] keywords[j]@, p)
}

/// How a route answers the lower-case search text `p`: by its end's direction (under the direction's name,
/// exact when the direction's lower-case name is `p`), else by its end's name or keywords (under the route's listed name, exact when that
/// name in lower case is `p`), else not at all.
pub open spec fn route_found(r: RouteSight, p: Seq<char>) -> Option<(Seq<char>, Target, bool)> {
    if has_substring(r.direction.spec_name_lowercase()@, p) {
        Some((r.direction.spec_name()@, Target::Route(r.uid), r.direction.spec_name_lowercase()@ == p))
    } else if has_substring(lowercase(r.end_name@), p) || any_keyword_has(r.end_keywords@, p) {
        Some((r.indexed_name@, Target::Route(r.uid), lowercase(r.indexed_name@) == p))
    } else {
        None
    }
}

/// How a thing answers the lower-case search text `p`: by its name or keywords (under its listed name,
/// exact when that name in lower case is `p`), or not at all.
pub open spec fn thing_found(t: ThingSight, p: Seq<char>) -> Option<(Seq<char>, Target, bool)> {
    if has_substring(lowercase(t.name@), p) || any_keyword_has(t.keywords@, p) {
        Some((t.indexed_name@, Target::Thing(t.uid), lowercase(t.indexed_name@) == p))
    } else {
        None
    }
}

/// The answers of the routes `rs`, in order.
pub open spec fn routes_found(rs: Seq<RouteSight>, p: Seq<char>) -> Seq<(Seq<char>, Target, bool)>
    decreases rs.len(),
{
    if rs.len() == 0 {
        Seq::empty()
    } else {
        let prev = routes_found(rs.drop_last(), p);
        match route_found(rs.last(), p) {
            Some(x) => prev.push(x),
            None => prev,
        }
    }
}

/// The answers of the things `ts`, in order.
pub open spec fn things_found(ts: Seq<ThingSight>, p: Seq<char>) -> Seq<(Seq<char>, Target, bool)>
    decreases ts.len(),
{
    if ts.len() == 0 {
        Seq::empty()
    } else {
        let prev = things_found(ts.drop_last(), p);
        match thing_found(ts.last(), p) {
            Some(x) => prev.push(x),
            None => prev,
        }
    }
}

/// Whether `k` is the first index of a route with UID `uid`.
pub open spec fn first_route(rs: Seq<RouteSight>, uid: UID, k: int) -> bool {
    0 <= k < rs.len() && rs[k].uid == uid && forall|j: int| 0 <= j < k ==> (#[trigger] rs[j]).uid != uid
}

/// Whether `k` is the first index of a thing with UID `uid`.
pub open spec fn first_thing(ts: Seq<ThingSight>, uid: UID, k: int) -> bool {
    0 <= k < ts.len() && ts[k].uid == uid && forall|j: int| 0 <= j < k ==> (#[trigger] ts[j]).uid != uid
}

/// What a search for `partial` among the targets of kinds `types` finds. Text that parses as a UID must
/// name a route, an occupant or the area exactly (in that order of precedence), and gives that one exact
/// result when its kind is searched, else nothing. Other text is matched in lower case against the
/// routes, then the occupants.
pub open spec fn search_spec(partial: Seq<char>, s: Surroundings, types: Seq<TargetType>) -> Seq<(Seq<char>, Target, bool)> {
    let rs = s.routes@;
    let ts = s.occupants@;
    match parsed_uid(partial) {
        Some(uid) => if exists|k: int| first_route(rs, uid, k) {
            let k = choose|k: int| first_route(rs, uid, k);
            if types.contains(TargetType::Route) { seq![(rs[k].indexed_name@, Target::Route(uid), true)] } else { Seq::empty() }
        } else if exists|k: int| first_thing(ts, uid, k) {
            let k = choose|k: int| first_thing(ts, uid, k);
            if types.contains(TargetType::Thing) { seq![(ts[k].indexed_name@, Target::Thing(uid), true)] } else { Seq::empty() }
        } else if s.area_uid == uid {
            if types.contains(TargetType::Area) { seq![(s.area_name@, Target::Area(uid), true)] } else { Seq::empty() }
        } else {
            Seq::empty()
        },
        None => {
            let p = lowercase(partial);
            (if types.contains(TargetType::Route) { routes_found(rs, p) } else { Seq::empty() })
                + (if types.contains(TargetType::Thing) { things_found(ts, p) } else { Seq::empty() })
        },
    }
}

/// Whether a search result is an exact match.
pub open spec fn exact_match() -> spec_fn((Seq<char>, Target, bool)) -> bool {
    |x: (Seq<char>, Target, bool)| x.2
}

/// What finding a target by `unique` gives: the single result of the search, else its single exact
/// result; no result at all is `TargetNotFound`, several results without a single exact one are
/// `TargetNotUnique`, each naming `cmd_field` and the search text.
pub open spec fn find_spec(unique: Seq<char>, s: Surroundings, types: Seq<TargetType>, cmd_field: &'static str, r: Result<Target>) -> bool {
    let found = search_spec(unique, s, types);
    let exact = found.filter(exact_match());
    if found.len() == 1 {
        r == Ok::<Target, Error>(found[0].1)
    } else if exact.len() == 1 {
        r == Ok::<Target, Error>(exact[0].1)
    } else if found.len() == 0 {
        r matches Err(Error::TargetNotFound { target, search }) && target == cmd_field && search@ == unique
    } else {
        r matches Err(Error::TargetNotUnique { target, search }) && target == cmd_field && search@ == unique
    }
}

/// A route has at most one first listing for a UID.
pub proof fn lemma_first_route_unique(rs: Seq<RouteSight>, uid: UID, a: int, b: int)
    requires
        first_route(rs, uid, a),
        first_route(rs, uid, b),
    ensures
        a == b,
{
    if a < b {
        assert(rs[a].uid != uid);
    } else if b < a {
        assert(rs[b].uid != uid);
    }
}

/// A thing has at most one first listing for a UID.
pub proof fn lemma_first_thing_unique(ts: Seq<ThingSight>, uid: UID, a: int, b: int)
    requires
        first_thing(ts, uid, a),
        first_thing(ts, uid, b),
    ensures
        a == b,
{
    if a < b {
        assert(ts[a].uid != uid);
    } else if b < a {
        assert(ts[b].uid != uid);
    }
}

fn route_position(routes: &Vec<RouteSight>, uid: UID) -> (r: Option<usize>)
    ensures
        match r {
            Some(k) => first_route(routes@, uid, k as int),
            None => forall|j: int| 0 <= j < routes@.len() ==> (#[trigger] routes@[j]).uid != uid,
        },
{
    let mut i: usize = 0;
    while i < routes.len()
        invariant
            i <= routes.len(),
            forall|j: int| 0 <= j < i ==> (#[trigger] routes@[j]).uid != uid,
        decreases routes.len() - i,
    {
        if routes[i].uid == uid {
            return Some(i);
        }
        i = i + 1;
    }
    None
}

fn thing_position(things: &Vec<ThingSight>, uid: UID) -> (r: Option<usize>)
    ensures
        match r {
            Some(k) => first_thing(things@, uid, k as int),
            None => forall|j: int| 0 <= j < things@.len() ==> (#[trigger] things@[j]).uid != uid,
        },
{
    let mut i: usize = 0;
    while i < things.len()
        invariant
            i <= things.len(),
            forall|j: int| 0 <= j < i ==> (#[trigger] things@[j]).uid != uid,
        decreases things.len() - i,
    {
        if things[i].uid == uid {
            return Some(i);
        }
        i = i + 1;
    }
    None
}

fn keyword_has(keywords: &Vec<String>, p: &str) -> (r: bool)
    ensures
        r == any_keyword_has(keywords@, p@),
{
    let mut i: usize = 0;
    while i < keywords.len()
        invariant
            i <= keywords.len(),
            forall|j: int| 0 <= j < i ==> !has_substring(#[trigger] keywords@[j]@, p@),
        decreases keywords.len() - i,
    {
        if contains_str(keywords[i].as_str(), p) {
            return true;
        }
        i = i + 1;
    }
    false
}

fn route_match(r: &RouteSight, p: &str) -> (m: Option<(String, Target, bool)>)
    ensures
        match m {
            Some(x) => route_found(*r, p@) == Some((x.0@, x.1, x.2)),
            None => route_found(*r, p@) is None,
        },
{
    let direction_name = r.direction.name_lowercase();
    if contains_str(direction_name, p) {
        let exact = str_equal(direction_name, p);
        return Some((string_of(r.direction.name()), Target::Route(r.uid), exact));
    }
    let end_name = to_lowercase(r.end_name.as_str());
    if contains_str(end_name.as_str(), p) || keyword_has(&r.end_keywords, p) {
        let indexed = to_lowercase(r.indexed_name.as_str());
        let exact = str_equal(indexed.as_str(), p);
        Some((string_of(r.indexed_name.as_str()), Target::Route(r.uid), exact))
    } else {
        None
    }
}

fn thing_match(t: &ThingSight, p: &str) -> (m: Option<(String, Target, bool)>)
    ensures
        match m {
            Some(x) => thing_found(*t, p@) == Some((x.0@, x.1, x.2)),
            None => thing_found(*t, p@) is None,
        },
{
    let name = to_lowercase(t.name.as_str());
    if contains_str(name.as_str(), p) || keyword_has(&t.keywords, p) {
        let indexed = to_lowercase(t.indexed_name.as_str());
        let exact = str_equal(indexed.as_str(), p);
        Some((string_of(t.indexed_name.as_str()), Target::Thing(t.uid), exact))
    } else {
        None
    }
}

impl Target {
    /// Searches for all possible targets partially matching a string.
    /// Returns the target and its name for each match, and whether the match is exact.
    pub fn search(partial: &str, surroundings: &Surroundings, types: &[TargetType]) -> (r: Vec<(String, Self, bool)>)
        ensures
            found_view(r@) == search_spec(partial@, *surroundings, types@),
    {
        let (find_areas, find_routes, find_things) = TargetType::split(types);
        let mut results: Vec<(String, Self, bool)> = Vec::new();
        let rs = &surroundings.routes;
        let ts = &surroundings.occupants;

        // UIDs must be exact
        if let Some(uid) = parse_uid(partial) {
            match route_position(rs, uid) {
                Some(k) => {
                    proof {
                        let c = choose|c: int| first_route(rs@, uid, c);
                        lemma_first_route_unique(rs@, uid, c, k as int);
                    }
                    if find_routes {
                        results.push((string_of(rs[k].indexed_name.as_str()), Self::Route(uid), true));
                        assert(found_view(results@) =~= seq![(rs@[k as int].indexed_name@, Target::Route(uid), true)]);
                    } else {
                        assert(found_view(results@) =~= Seq::<(Seq<char>, Target, bool)>::empty());
                    }
                    return results;
                },
                None => {},
            }
            match thing_position(ts, uid) {
                Some(k) => {
                    proof {
                        let c = choose|c: int| first_thing(ts@, uid, c);
                        lemma_first_thing_unique(ts@, uid, c, k as int);
                    }
                    if find_things {
                        results.push((string_of(ts[k].indexed_name.as_str()), Self::Thing(uid), true));
                        assert(found_view(results@) =~= seq![(ts@[k as int].indexed_name@, Target::Thing(uid), true)]);
                    } else {
                        assert(found_view(results@) =~= Seq::<(Seq<char>, Target, bool)>::empty());
                    }
                    return results;
                },
                None => {},
            }
            if surroundings.area_uid == uid && find_areas {
                results.push((string_of(surroundings.area_name.as_str()), Self::Area(uid), true));
                assert(found_view(results@) =~= seq![(surroundings.area_name@, Target::Area(uid), true)]);
            } else {
                assert(found_view(results@) =~= Seq::<(Seq<char>, Target, bool)>::empty());
            }
            return results;
        }

        let p = to_lowercase(partial);
        assert(found_view(results@) =~= Seq::<(Seq<char>, Target, bool)>::empty());

        if find_routes {
            let mut i: usize = 0;
            while i < rs.len()
                invariant
                    i <= rs.len(),
                    found_view(results@) == routes_found(rs@.subrange(0, i as int), p@),
                decreases rs.len() - i,
            {
                let ghost before = results@;
                assert(rs@.subrange(0, i + 1).drop_last() =~= rs@.subrange(0, i as int));
                assert(rs@.subrange(0, i + 1).last() == rs@[i as int]);
                match route_match(&rs[i], p.as_str()) {
                    Some(x) => {
                        results.push(x);
                        assert(found_view(results@) =~= found_view(before).push((results@.last().0@, results@.last().1, results@.last().2)));
                    },
                    None => {},
                }
                i = i + 1;
            }
            assert(rs@.subrange(0, rs@.len() as int) =~= rs@);
        }
        let ghost after_routes = results@;

        if find_things {
            let mut i: usize = 0;
            while i < ts.len()
                invariant
                    i <= ts.len(),
                    found_view(results@) == found_view(after_routes) + things_found(ts@.subrange(0, i as int), p@),
                decreases ts.len() - i,
            {
                let ghost before = results@;
                assert(ts@.subrange(0, i + 1).drop_last() =~= ts@.subrange(0, i as int));
                assert(ts@.subrange(0, i + 1).last() == ts@[i as int]);
                match thing_match(&ts[i], p.as_str()) {
                    Some(x) => {
                        results.push(x);
                        assert(found_view(results@) =~= found_view(before).push((results@.last().0@, results@.last().1, results@.last().2)));
                    },
                    None => {},
                }
                i = i + 1;
            }
            assert(ts@.subrange(0, ts@.len() as int) =~= ts@);
        } else {
            assert(found_view(results@) =~= found_view(after_routes) + Seq::<(Seq<char>, Target, bool)>::empty());
        }
        results
    }

    /// Finds a target by an attribute that is unique to it from the perspective of the viewer.
    /// If the attribute is not unique, an error is returned.
    pub fn find(unique: &str, surroundings: &Surroundings, types: &[TargetType], cmd_field: &'static str) -> (r: Result<Self>)
        ensures
            find_spec(unique@, *surroundings, types@, cmd_field, r),
    {
        let results = Self::search(unique, surroundings, types);
        let ghost found = found_view(results@);
        let total = results.len();
        assert(found.len() == total);
        if total == 1 {
            assert(found[0].1 == results@[0].1);
            return Ok(results[0].1);
        }

        let mut exact_count: usize = 0;
        let mut exact_target: Option<Target> = None;
        let mut i: usize = 0;
        while i < results.len()
            invariant
                i <= results.len(),
                found == found_view(results@),
                exact_count == found.subrange(0, i as int).filter(exact_match()).len(),
                exact_count <= i,
                exact_count > 0 ==> exact_target == Some(found.subrange(0, i as int).filter(exact_match()).last().1),
            decreases results.len() - i,
        {
            let ghost prefix = found.subrange(0, i as int);
            let ghost next = found.subrange(0, i + 1);
            assert(next.drop_last() =~= prefix);
            assert(next.last() == found[i as int]);
            assert(found[i as int] == (results@[i as int].0@, results@[i as int].1, results@[i as int].2));
            assert(exact_match()(found[i as int]) == results@[i as int].2);
            reveal_with_fuel(Seq::filter, 1);
            assert(next.filter(exact_match()) == (if results@[i as int].2 {
                prefix.filter(exact_match()).push(found[i as int])
            } else {
                prefix.filter(exact_match())
            }));
            if results[i].2 {
                exact_count = exact_count + 1;
                exact_target = Some(results[i].1);
            }
            i = i + 1;
        }
        assert(found.subrange(0, found.len() as int) =~= found);
        let ghost exact = found.filter(exact_match());
        if exact_count == 1 {
            assert(exact.len() == 1 && exact.last() == exact[0]);
            return Ok(exact_target.unwrap());
        }
        if total == 0 {
            Err(Error::TargetNotFound { target: cmd_field, search: string_of(unique) })
        } else {
            Err(Error::TargetNotUnique { target: cmd_field, search: string_of(unique) })
        }
    }
}

/// The kind of a target, if it names one.
pub open spec fn kind_of(t: Target) -> Option<TargetType> {
    match t {
        Target::Area(_) => Some(TargetType::Area),
        Target::Route(_) => Some(TargetType::Route),
        Target::Thing(_) => Some(TargetType::Thing),
        Target::Empty => None,
    }
}

/// Whether the viewer perceives `t`: its own area, or a route or thing listed in its surroundings.
pub open spec fn perceived(s: Surroundings, t: Target) -> bool {
    match t {
        Target::Area(uid) => uid == s.area_uid,
        Target::Route(uid) => exists|k: int| 0 <= k < s.routes@.len() && (#[trigger] s.routes@[k]).uid == uid,
        Target::Thing(uid) => exists|k: int| 0 <= k < s.occupants@.len() && (#[trigger] s.occupants@[k]).uid == uid,
        Target::Empty => false,
    }
}

proof fn lemma_routes_found_perceived(rs: Seq<RouteSight>, p: Seq<char>)
    ensures
        forall|i: int| 0 <= i < routes_found(rs, p).len() ==> {
            let t = (#[trigger] routes_found(rs, p)[i]).1;
            t is Route && exists|k: int| 0 <= k < rs.len() && (#[trigger] rs[k]).uid == t->Route_0
        },
    decreases rs.len(),
{
    if rs.len() > 0 {
        let prev = rs.drop_last();
        lemma_routes_found_perceived(prev, p);
        assert forall|i: int| 0 <= i < routes_found(rs, p).len() implies {
            let t = (#[trigger] routes_found(rs, p)[i]).1;
            t is Route && exists|k: int| 0 <= k < rs.len() && (#[trigger] rs[k]).uid == t->Route_0
        } by {
            if i < routes_found(prev, p).len() {
                let t = routes_found(prev, p)[i].1;
                let k = choose|k: int| 0 <= k < prev.len() && (#[trigger] prev[k]).uid == t->Route_0;
                assert(rs[k] == prev[k]);
            } else {
                assert(rs[rs.len() - 1] == rs.last());
            }
        }
    }
}

proof fn lemma_things_found_perceived(ts: Seq<ThingSight>, p: Seq<char>)
    ensures
        forall|i: int| 0 <= i < things_found(ts, p).len() ==> {
            let t = (#[trigger] things_found(ts, p)[i]).1;
            t is Thing && exists|k: int| 0 <= k < ts.len() && (#[trigger] ts[k]).uid == t->Thing_0
        },
    decreases ts.len(),
{
    if ts.len() > 0 {
        let prev = ts.drop_last();
        lemma_things_found_perceived(prev, p);
        assert forall|i: int| 0 <= i < things_found(ts, p).len() implies {
            let t = (#[trigger] things_found(ts, p)[i]).1;
            t is Thing && exists|k: int| 0 <= k < ts.len() && (#[trigger] ts[k]).uid == t->Thing_0
        } by {
            if i < things_found(prev, p).len() {
                let t = things_found(prev, p)[i].1;
                let k = choose|k: int| 0 <= k < prev.len() && (#[trigger] prev[k]).uid == t->Thing_0;
                assert(ts[k] == prev[k]);
            } else {
                assert(ts[ts.len() - 1] == ts.last());
            }
        }
    }
}

/// Every target that a search finds is one that the viewer perceives, and of a kind that was searched for.
pub proof fn lemma_search_finds_perceived(partial: Seq<char>, s: Surroundings, types: Seq<TargetType>)
    ensures
        forall|i: int| 0 <= i < search_spec(partial, s, types).len() ==> {
            let t = (#[trigger] search_spec(partial, s, types)[i]).1;
            perceived(s, t) && (kind_of(t) matches Some(k) && types.contains(k))
        },
{
    let found = search_spec(partial, s, types);
    let rs = s.routes@;
    let ts = s.occupants@;
    match parsed_uid(partial) {
        Some(uid) => {
            if exists|k: int| first_route(rs, uid, k) {
                let k = choose|k: int| first_route(rs, uid, k);
                assert(rs[k].uid == uid);
            } else if exists|k: int| first_thing(ts, uid, k) {
                let k = choose|k: int| first_thing(ts, uid, k);
                assert(ts[k].uid == uid);
            }
        },
        None => {
            let p = lowercase(partial);
            lemma_routes_found_perceived(rs, p);
            lemma_things_found_perceived(ts, p);
            let a = if types.contains(TargetType::Route) { routes_found(rs, p) } else { Seq::empty() };
            let b = if types.contains(TargetType::Thing) { things_found(ts, p) } else { Seq::empty() };
            assert(found == a + b);
            assert forall|i: int| 0 <= i < found.len() implies {
                let t = (#[trigger] found[i]).1;
                perceived(s, t) && (kind_of(t) matches Some(k) && types.contains(k))
            } by {
                if i < a.len() {
                    assert(found[i] == a[i]);
                    assert(routes_found(rs, p)[i] == a[i]);
                } else {
                    assert(found[i] == b[i - a.len()]);
                    assert(things_found(ts, p)[i - a.len()] == b[i - a.len()]);
                }
            }
        },
    }
}

/// A target that finding succeeds on is one that a search finds, so the viewer perceives it and it is of a
/// kind that was searched for.
pub proof fn lemma_find_finds_perceived(unique: Seq<char>, s: Surroundings, types: Seq<TargetType>, cmd_field: &'static str, t: Target)
    requires
        find_spec(unique, s, types, cmd_field, Ok(t)),
    ensures
        perceived(s, t),
        kind_of(t) matches Some(k) && types.contains(k),
{
    let found = search_spec(unique, s, types);
    lemma_search_finds_perceived(unique, s, types);
    if found.len() == 1 {
        assert(found[0].1 == t);
    } else {
        let exact = found.filter(exact_match());
        lemma_filtered_from(found, exact_match());
        assert(exact.len() == 1);
        assert(found.contains(exact[0]));
        let i = choose|i: int| 0 <= i < found.len() && found[i] == exact[0];
        assert(found[i].1 == t);
    }
}

proof fn lemma_filtered_from<A>(s: Seq<A>, pred: spec_fn(A) -> bool)
    ensures
        forall|i: int| 0 <= i < s.filter(pred).len() ==> s.contains(#[trigger] s.filter(pred)[i]),
    decreases s.len(),
{
    reveal_with_fuel(Seq::filter, 1);
    if s.len() > 0 {
        let prev = s.drop_last();
        lemma_filtered_from(prev, pred);
        let f = s.filter(pred);
        assert forall|i: int| 0 <= i < f.len() implies s.contains(#[trigger] f[i]) by {
            if i < prev.filter(pred).len() {
                assert(f[i] == prev.filter(pred)[i]);
                let j = choose|j: int| 0 <= j < prev.len() && prev[j] == f[i];
                assert(s[j] == prev[j]);
            } else {
                assert(f[i] == s.last());
                assert(s[s.len() - 1] == s.last());
            }
        }
    }
}

proof fn lemma_first_route_exists(rs: Seq<RouteSight>, uid: UID, k: int)
    requires
        0 <= k < rs.len(),
        rs[k].uid == uid,
    ensures
        exists|j: int| first_route(rs, uid, j),
    decreases k,
{
    if exists|j: int| 0 <= j < k && (#[trigger] rs[j]).uid == uid {
        let j = choose|j: int| 0 <= j < k && (#[trigger] rs[j]).uid == uid;
        lemma_first_route_exists(rs, uid, j);
    } else {
        assert(first_route(rs, uid, k));
    }
}

proof fn lemma_first_thing_exists(ts: Seq<ThingSight>, uid: UID, k: int)
    requires
        0 <= k < ts.len(),
        ts[k].uid == uid,
    ensures
        exists|j: int| first_thing(ts, uid, j),
    decreases k,
{
    if exists|j: int| 0 <= j < k && (#[trigger] ts[j]).uid == uid {
        let j = choose|j: int| 0 <= j < k && (#[trigger] ts[j]).uid == uid;
        lemma_first_thing_exists(ts, uid, j);
    } else {
        assert(first_thing(ts, uid, k));
    }
}

/// A route or thing that the viewer perceives has a first listing.
pub proof fn lemma_perceived_listed(s: Surroundings, t: Target)
    requires
        perceived(s, t),
    ensures
        t matches Target::Route(uid) ==> exists|j: int| first_route(s.routes@, uid, j),
        t matches Target::Thing(uid) ==> exists|j: int| first_thing(s.occupants@, uid, j),
{
    match t {
        Target::Route(uid) => {
            let k = choose|k: int| 0 <= k < s.routes@.len() && (#[trigger] s.routes@[k]).uid == uid;
            lemma_first_route_exists(s.routes@, uid, k);
        },
        Target::Thing(uid) => {
            let k = choose|k: int| 0 <= k < s.occupants@.len() && (#[trigger] s.occupants@[k]).uid == uid;
            lemma_first_thing_exists(s.occupants@, uid, k);
        },
        _ => {},
    }
}

/// Exact UIDs are searched: the decimal UID of a route that leaves the area finds that route (under the name of
/// its first listing) and nothing else, whenever routes are searched.
pub proof fn lemma_route_uid_found(s: Surroundings, types: Seq<TargetType>, k: int)
    requires
        0 <= k < s.routes@.len(),
        types.contains(TargetType::Route),
    ensures
        exists|j: int| first_route(s.routes@, s.routes@[k].uid, j)
            && search_spec(decimal_text(s.routes@[k].uid as nat), s, types)
                == seq![(s.routes@[j].indexed_name@, Target::Route(s.routes@[k].uid), true)],
{
    let uid = s.routes@[k].uid;
    lemma_decimal_uid_parses(uid);
    lemma_first_route_exists(s.routes@, uid, k);
}

/// Exact UIDs are searched: the decimal UID of a thing in the area, which no route shares, finds that thing
/// (under the name of its first listing) and nothing else, whenever things are searched.
pub proof fn lemma_thing_uid_found(s: Surroundings, types: Seq<TargetType>, k: int)
    requires
        0 <= k < s.occupants@.len(),
        types.contains(TargetType::Thing),
        forall|j: int| 0 <= j < s.routes@.len() ==> (#[trigger] s.routes@[j]).uid != s.occupants@[k].uid,
    ensures
        exists|j: int| first_thing(s.occupants@, s.occupants@[k].uid, j)
            && search_spec(decimal_text(s.occupants@[k].uid as nat), s, types)
                == seq![(s.occupants@[j].indexed_name@, Target::Thing(s.occupants@[k].uid), true)],
{
    let uid = s.occupants@[k].uid;
    lemma_decimal_uid_parses(uid);
    lemma_first_thing_exists(s.occupants@, uid, k);
    assert(!exists|j: int| first_route(s.routes@, uid, j));
}

/// Exact UIDs are searched: the decimal UID of the area, which no route or thing shares, finds the area and
/// nothing else, whenever areas are searched.
pub proof fn lemma_area_uid_found(s: Surroundings, types: Seq<TargetType>)
    requires
        types.contains(TargetType::Area),
        forall|j: int| 0 <= j < s.routes@.len() ==> (#[trigger] s.routes@[j]).uid != s.area_uid,
        forall|j: int| 0 <= j < s.occupants@.len() ==> (#[trigger] s.occupants@[j]).uid != s.area_uid,
    ensures
        search_spec(decimal_text(s.area_uid as nat), s, types) == seq![(s.area_name@, Target::Area(s.area_uid), true)],
{
    lemma_decimal_uid_parses(s.area_uid);
    assert(!exists|j: int| first_route(s.routes@, s.area_uid, j));
    assert(!exists|j: int| first_thing(s.occupants@, s.area_uid, j));
}

proof fn lemma_filter_none<A>(s: Seq<A>, pred: spec_fn(A) -> bool)
    requires
        forall|j: int| 0 <= j < s.len() ==> !pred(#[trigger] s[j]),
    ensures
        s.filter(pred) =~= Seq::<A>::empty(),
    decreases s.len(),
{
    reveal_with_fuel(Seq::filter, 1);
    if s.len() > 0 {
        assert(!pred(s[s.len() - 1]));
        lemma_filter_none(s.drop_last(), pred);
    }
}

proof fn lemma_filter_single<A>(s: Seq<A>, pred: spec_fn(A) -> bool, i: int)
    requires
        0 <= i < s.len(),
        pred(s[i]),
        forall|j: int| 0 <= j < s.len() && j != i ==> !pred(#[trigger] s[j]),
    ensures
        s.filter(pred) =~= seq![s[i]],
    decreases s.len(),
{
    reveal_with_fuel(Seq::filter, 1);
    let prev = s.drop_last();
    if i == s.len() - 1 {
        lemma_filter_none(prev, pred);
    } else {
        assert(!pred(s[s.len() - 1]));
        assert(prev[i] == s[i]);
        lemma_filter_single(prev, pred, i);
    }
}

/// Finding prefers the single exact match: when a search finds several targets and exactly one of them is an
/// exact match, finding gives that one; and whenever a search finds several targets, the target that finding
/// gives is one that the search matched exactly.
pub proof fn lemma_find_prefers_the_exact_match(unique: Seq<char>, s: Surroundings, types: Seq<TargetType>,
    cmd_field: &'static str, r: Result<Target>)
    requires
        find_spec(unique, s, types, cmd_field, r),
    ensures
        forall|i: int| 0 <= i < search_spec(unique, s, types).len()
            && search_spec(unique, s, types).len() > 1
            && (#[trigger] search_spec(unique, s, types)[i]).2
            && (forall|j: int| 0 <= j < search_spec(unique, s, types).len() && j != i
                ==> !(#[trigger] search_spec(unique, s, types)[j]).2)
            ==> r == Ok::<Target, Error>(search_spec(unique, s, types)[i].1),
        search_spec(unique, s, types).len() > 1 && r is Ok ==> exists|i: int|
            0 <= i < search_spec(unique, s, types).len() && (#[trigger] search_spec(unique, s, types)[i]).2
                && r == Ok::<Target, Error>(search_spec(unique, s, types)[i].1),
{
    let found = search_spec(unique, s, types);
    let exact = found.filter(exact_match());
    assert forall|i: int| 0 <= i < found.len() && found.len() > 1 && (#[trigger] found[i]).2
        && (forall|j: int| 0 <= j < found.len() && j != i ==> !(#[trigger] found[j]).2)
        implies r == Ok::<Target, Error>(found[i].1) by {
        assert forall|j: int| 0 <= j < found.len() && j != i implies !exact_match()(#[trigger] found[j]) by {
            assert(!found[j].2);
        }
        lemma_filter_single(found, exact_match(), i);
    }
    if r is Ok && found.len() > 1 {
        let t = r->Ok_0;
        lemma_filtered_from(found, exact_match());
        assert(exact.len() == 1);
        found.lemma_filter_pred(exact_match(), 0);
        assert(found.contains(exact[0]));
        let i = choose|i: int| 0 <= i < found.len() && found[i] == exact[0];
        assert(found[i].2 && found[i].1 == t);
    }
}

proof fn lemma_routes_found_each(rs: Seq<RouteSight>, p: Seq<char>, k: int)
    requires
        0 <= k < rs.len(),
        route_found(rs[k], p) is Some,
    ensures
        exists|i: int| 0 <= i < routes_found(rs, p).len()
            && (#[trigger] routes_found(rs, p)[i]).1 == Target::Route(rs[k].uid),
    decreases rs.len(),
{
    let prev = rs.drop_last();
    let f = routes_found(rs, p);
    if k == rs.len() - 1 {
        assert(rs.last() == rs[k]);
        let i = routes_found(prev, p).len() as int;
        assert(f[i].1 == Target::Route(rs[k].uid));
    } else {
        assert(prev[k] == rs[k]);
        lemma_routes_found_each(prev, p, k);
        let i = choose|i: int| 0 <= i < routes_found(prev, p).len()
            && (#[trigger] routes_found(prev, p)[i]).1 == Target::Route(rs[k].uid);
        assert(f[i] == routes_found(prev, p)[i]);
    }
}

proof fn lemma_things_found_each(ts: Seq<ThingSight>, p: Seq<char>, k: int)
    requires
        0 <= k < ts.len(),
        thing_found(ts[k], p) is Some,
    ensures
        exists|i: int| 0 <= i < things_found(ts, p).len()
            && #[trigger] things_found(ts, p)[i] == thing_found(ts[k], p)->Some_0,
    decreases ts.len(),
{
    let prev = ts.drop_last();
    let f = things_found(ts, p);
    if k == ts.len() - 1 {
        assert(ts.last() == ts[k]);
        let i = things_found(prev, p).len() as int;
        assert(f[i] == thing_found(ts[k], p)->Some_0);
    } else {
        assert(prev[k] == ts[k]);
        lemma_things_found_each(prev, p, k);
        let i = choose|i: int| 0 <= i < things_found(prev, p).len()
            && #[trigger] things_found(prev, p)[i] == thing_found(ts[k], p)->Some_0;
        assert(f[i] == things_found(prev, p)[i]);
    }
}

/// A search finds by partial match: for text that is no UID, every occupant whose lower-case name or one of
/// whose keywords contains the lower-case text (under its listed name, exact exactly when that name in lower
/// case is the lower-case text), and every route whose direction's lower-case name, end's
/// lower-case name or one of whose end's keywords contains it, is among the results when its kind is searched.
pub proof fn lemma_search_finds_partial_matches(partial: Seq<char>, s: Surroundings, types: Seq<TargetType>)
    requires
        parsed_uid(partial) is None,
    ensures
        types.contains(TargetType::Thing) ==> forall|k: int| 0 <= k < s.occupants@.len() && ({
            let t = #[trigger] s.occupants@[k];
            has_substring(lowercase(t.name@), lowercase(partial))
                || exists|j: int| 0 <= j < t.keywords@.len() && has_substring(#[trigger] t.keywords@[j]@, lowercase(partial))
        }) ==> exists|i: int| 0 <= i < search_spec(partial, s, types).len()
            && #[trigger] search_spec(partial, s, types)[i] == (s.occupants@[k].indexed_name@,
                Target::Thing(s.occupants@[k].uid), lowercase(s.occupants@[k].indexed_name@) == lowercase(partial)),
        types.contains(TargetType::Route) ==> forall|k: int| 0 <= k < s.routes@.len() && ({
            let r = #[trigger] s.routes@[k];
            has_substring(r.direction.spec_name_lowercase()@, lowercase(partial))
                || has_substring(lowercase(r.end_name@), lowercase(partial))
                || exists|j: int| 0 <= j < r.end_keywords@.len() && has_substring(#[trigger] r.end_keywords@[j]@, lowercase(partial))
        }) ==> exists|i: int| 0 <= i < search_spec(partial, s, types).len()
            && (#[trigger] search_spec(partial, s, types)[i]).1 == Target::Route(s.routes@[k].uid),
{
    let p = lowercase(partial);
    let rs = s.routes@;
    let ts = s.occupants@;
    let found = search_spec(partial, s, types);
    let a = if types.contains(TargetType::Route) { routes_found(rs, p) } else { Seq::empty() };
    let b = if types.contains(TargetType::Thing) { things_found(ts, p) } else { Seq::empty() };
    assert(found == a + b);
    if types.contains(TargetType::Thing) {
        assert forall|k: int| 0 <= k < ts.len() && ({
            let t = #[trigger] ts[k];
            has_substring(lowercase(t.name@), p)
                || exists|j: int| 0 <= j < t.keywords@.len() && has_substring(#[trigger] t.keywords@[j]@, p)
        }) implies exists|i: int| 0 <= i < found.len() && #[trigger] found[i] == (ts[k].indexed_name@,
                Target::Thing(ts[k].uid), lowercase(ts[k].indexed_name@) == p) by {
            lemma_things_found_each(ts, p, k);
            let i = choose|i: int| 0 <= i < things_found(ts, p).len()
                && #[trigger] things_found(ts, p)[i] == thing_found(ts[k], p)->Some_0;
            assert(found[a.len() + i] == b[i]);
        }
    }
    if types.contains(TargetType::Route) {
        assert forall|k: int| 0 <= k < rs.len() && ({
            let r = #[trigger] rs[k];
            has_substring(r.direction.spec_name_lowercase()@, p)
                || has_substring(lowercase(r.end_name@), p)
                || exists|j: int| 0 <= j < r.end_keywords@.len() && has_substring(#[trigger] r.end_keywords@[j]@, p)
        }) implies exists|i: int| 0 <= i < found.len() && (#[trigger] found[i]).1 == Target::Route(rs[k].uid) by {
            lemma_routes_found_each(rs, p, k);
            let i = choose|i: int| 0 <= i < routes_found(rs, p).len()
                && (#[trigger] routes_found(rs, p)[i]).1 == Target::Route(rs[k].uid);
            assert(found[i] == a[i]);
        }
    }
}

} // verus!
