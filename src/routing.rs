//! The static route table: URL paths mapped to the files that serve them.

use vstd::prelude::*;
use vstd::hash_map::StringHashMap;
use vstd::string::*;
use crate::request::{chars_of, text_between};

verus! {

/// A name that starts with a dot.
pub open spec fn is_hidden_name(name: Seq<char>) -> bool {
    name.len() > 0 && name[0] == '.'
}

/// A path none of whose components is hidden.
pub open spec fn is_visible(components: Seq<Seq<char>>) -> bool {
    forall|i: int| 0 <= i < components.len() ==> !is_hidden_name(#[trigger] components[i])
}

/// Each component preceded by a slash.
pub open spec fn slash_path(components: Seq<Seq<char>>) -> Seq<char>
    decreases components.len(),
{
    if components.len() == 0 {
        Seq::empty()
    } else {
        slash_path(components.drop_last()) + "/"@ + components.last()
    }
}

/// The URL of a file: `/<folder name>/<components joined by slashes>`.
pub open spec fn route_url(folder_name: Seq<char>, components: Seq<Seq<char>>) -> Seq<char> {
    "/"@ + folder_name + slash_path(components)
}

/// An entry found by a walk over a registered folder, as values.
pub struct EntryModel {
    pub components: Seq<Seq<char>>,
    pub path: Seq<char>,
    pub is_file: bool,
}

impl EntryModel {
    /// The entry is served: a regular file outside any hidden directory,
    /// with no hidden name itself.
    pub open spec fn is_served(self) -> bool {
        self.is_file && is_visible(self.components)
    }
}

/// The table after registering, in order, the entries of a walk over the
/// folder called `folder_name`: each served entry is inserted under its URL,
/// a later one replacing an earlier one with the same URL.
pub open spec fn register_spec(
    routes: Map<Seq<char>, Seq<char>>,
    folder_name: Seq<char>,
    entries: Seq<EntryModel>,
) -> Map<Seq<char>, Seq<char>>
    decreases entries.len(),
{
    if entries.len() == 0 {
        routes
    } else {
        let before = register_spec(routes, folder_name, entries.drop_last());
        let e = entries.last();
        if e.is_served() {
            before.insert(route_url(folder_name, e.components), e.path)
        } else {
            before
        }
    }
}

/// No name holds a slash, as is the case of file names.
pub open spec fn names_without_slash(components: Seq<Seq<char>>) -> bool {
    forall|i: int, k: int|
        0 <= i < components.len() && 0 <= k < components[i].len() ==> #[trigger] components[i][k]
            != '/'
}

/// The table after a series of folder registrations, starting from an
/// empty one: each registration is a folder name and the entries of its walk.
pub open spec fn registered_all(registrations: Seq<(Seq<char>, Seq<EntryModel>)>) -> Map<
    Seq<char>,
    Seq<char>,
>
    decreases registrations.len(),
{
    if registrations.len() == 0 {
        Map::empty()
    } else {
        register_spec(
            registered_all(registrations.drop_last()),
            registrations.last().0,
            registrations.last().1,
        )
    }
}

proof fn lemma_slash_path_len(c: Seq<Seq<char>>)
    ensures
        c.len() > 0 ==> slash_path(c).len() >= 1,
{
    reveal_strlit("/");
}

proof fn lemma_slash_path_injective(a: Seq<Seq<char>>, b: Seq<Seq<char>>)
    requires
        names_without_slash(a),
        names_without_slash(b),
        slash_path(a) == slash_path(b),
    ensures
        a == b,
    decreases a.len(),
{
    reveal_strlit("/");
    lemma_slash_path_len(a);
    lemma_slash_path_len(b);
    if a.len() > 0 && b.len() > 0 {
        let s = slash_path(a);
        let n = s.len() as int;
        let la = a.last();
        let lb = b.last();
        let pa = slash_path(a.drop_last());
        let pb = slash_path(b.drop_last());
        if la.len() < lb.len() {
            assert(b[b.len() - 1][lb.len() - la.len() - 1] != '/');
        } else if lb.len() < la.len() {
            assert(a[a.len() - 1][la.len() - lb.len() - 1] != '/');
        }
        assert(la =~= s.subrange(n - la.len(), n));
        assert(lb =~= s.subrange(n - lb.len(), n));
        assert(pa =~= s.subrange(0, n - la.len() - 1));
        assert(pb =~= s.subrange(0, n - lb.len() - 1));
        lemma_slash_path_injective(a.drop_last(), b.drop_last());
        assert(b =~= b.drop_last().push(lb));
    }
}

/// A URL is a key of the table after a registration exactly when it was one
/// before, or it is the URL of a served entry of the walk.
pub proof fn lemma_register_keys(
    routes: Map<Seq<char>, Seq<char>>,
    folder_name: Seq<char>,
    entries: Seq<EntryModel>,
    url: Seq<char>,
)
    ensures
        register_spec(routes, folder_name, entries).contains_key(url) <==> routes.contains_key(url)
            || exists|i: int|
            0 <= i < entries.len() && #[trigger] entries[i].is_served() && url == route_url(
                folder_name,
                entries[i].components,
            ),
    decreases entries.len(),
{
    if entries.len() > 0 {
        let init = entries.drop_last();
        lemma_register_keys(routes, folder_name, init, url);
        let last = entries.len() - 1;
        if exists|i: int|
            0 <= i < init.len() && #[trigger] init[i].is_served() && url == route_url(
                folder_name,
                init[i].components,
            ) {
            let i = choose|i: int|
                0 <= i < init.len() && #[trigger] init[i].is_served() && url == route_url(
                    folder_name,
                    init[i].components,
                );
        }
        if exists|i: int|
            0 <= i < entries.len() && #[trigger] entries[i].is_served() && url == route_url(
                folder_name,
                entries[i].components,
            ) {
            let i = choose|i: int|
                0 <= i < entries.len() && #[trigger] entries[i].is_served() && url == route_url(
                    folder_name,
                    entries[i].components,
                );
            if i < last {
                assert(init[i] == entries[i]);
            }
        }
    }
}

/// Registering a folder serves each regular file that lies outside hidden
/// entries under `/<folder name>/<path below the folder>`, and adds no route
/// for a file that is hidden or lies in a hidden directory.
pub proof fn lemma_register_serves_visible_files(
    routes: Map<Seq<char>, Seq<char>>,
    folder_name: Seq<char>,
    entries: Seq<EntryModel>,
)
    requires
        forall|i: int| 0 <= i < entries.len() ==> names_without_slash(#[trigger] entries[i].components),
    ensures
        forall|i: int|
            0 <= i < entries.len() && #[trigger] entries[i].is_served() ==> register_spec(
                routes,
                folder_name,
                entries,
            ).contains_key(route_url(folder_name, entries[i].components)),
        forall|i: int|
            0 <= i < entries.len() && entries[i].is_file && !is_visible(
                #[trigger] entries[i].components,
            ) ==> (register_spec(routes, folder_name, entries).contains_key(
                route_url(folder_name, entries[i].components),
            ) <==> routes.contains_key(route_url(folder_name, entries[i].components))),
{
    reveal_strlit("/");
    let table = register_spec(routes, folder_name, entries);
    assert forall|i: int| 0 <= i < entries.len() && #[trigger] entries[i].is_served() implies table.contains_key(
        route_url(folder_name, entries[i].components),
    ) by {
        lemma_register_keys(routes, folder_name, entries, route_url(folder_name, entries[i].components));
    }
    assert forall|i: int|
        0 <= i < entries.len() && entries[i].is_file && !is_visible(
            #[trigger] entries[i].components,
        ) implies (table.contains_key(route_url(folder_name, entries[i].components))
        <==> routes.contains_key(route_url(folder_name, entries[i].components))) by {
        let url = route_url(folder_name, entries[i].components);
        lemma_register_keys(routes, folder_name, entries, url);
        if exists|j: int|
            0 <= j < entries.len() && #[trigger] entries[j].is_served() && url == route_url(
                folder_name,
                entries[j].components,
            ) {
            let j = choose|j: int|
                0 <= j < entries.len() && #[trigger] entries[j].is_served() && url == route_url(
                    folder_name,
                    entries[j].components,
                );
            let ci = entries[i].components;
            let cj = entries[j].components;
            assert(slash_path(ci) =~= url.subrange(1 + folder_name.len() as int, url.len() as int));
            assert(slash_path(cj) =~= url.subrange(1 + folder_name.len() as int, url.len() as int));
            lemma_slash_path_injective(ci, cj);
        }
    }
}

/// After any series of registrations, a path is static content exactly when
/// one of the registrations produced it: it is the URL of a served entry of
/// that registration's walk.
pub proof fn lemma_static_iff_registered(
    registrations: Seq<(Seq<char>, Seq<EntryModel>)>,
    path: Seq<char>,
)
    ensures
        registered_all(registrations).contains_key(path) <==> exists|j: int, i: int|
            0 <= j < registrations.len() && 0 <= i < registrations[j].1.len()
                && #[trigger] registrations[j].1[i].is_served() && path == route_url(
                registrations[j].0,
                registrations[j].1[i].components,
            ),
    decreases registrations.len(),
{
    if registrations.len() > 0 {
        let init = registrations.drop_last();
        let last = registrations.len() - 1;
        let (name, entries) = registrations.last();
        lemma_static_iff_registered(init, path);
        lemma_register_keys(registered_all(init), name, entries, path);
        if exists|j: int, i: int|
            0 <= j < init.len() && 0 <= i < init[j].1.len() && #[trigger] init[j].1[i].is_served()
                && path == route_url(init[j].0, init[j].1[i].components) {
            let (j, i) = choose|j: int, i: int|
                0 <= j < init.len() && 0 <= i < init[j].1.len()
                    && #[trigger] init[j].1[i].is_served() && path == route_url(
                    init[j].0,
                    init[j].1[i].components,
                );
        }
        if exists|i: int|
            0 <= i < entries.len() && #[trigger] entries[i].is_served() && path == route_url(
                name,
                entries[i].components,
            ) {
            let i = choose|i: int|
                0 <= i < entries.len() && #[trigger] entries[i].is_served() && path == route_url(
                    name,
                    entries[i].components,
                );
        }
        if exists|j: int, i: int|
            0 <= j < registrations.len() && 0 <= i < registrations[j].1.len()
                && #[trigger] registrations[j].1[i].is_served() && path == route_url(
                registrations[j].0,
                registrations[j].1[i].components,
            ) {
            let (j, i) = choose|j: int, i: int|
                0 <= j < registrations.len() && 0 <= i < registrations[j].1.len()
                    && #[trigger] registrations[j].1[i].is_served() && path == route_url(
                    registrations[j].0,
                    registrations[j].1[i].components,
                );
            if j < last {
                assert(init[j].1[i].is_served());
            }
        }
    }
}

/// An entry found by a walk over a registered folder.
pub struct WalkEntry {
    /// The names of the path's components below the folder, outermost first.
    pub components: Vec<String>,
    /// The path of the entry, as the walk reports it.
    pub path: String,
    /// The entry is a regular file.
    pub is_file: bool,
}

impl View for WalkEntry {
    type V = EntryModel;

    open spec fn view(&self) -> EntryModel {
        EntryModel {
            components: self.components@.map_values(|c: String| c@),
            path: self.path@,
            is_file: self.is_file,
        }
    }
}

/// The values of a list of walk entries.
pub open spec fn entries_view(entries: Seq<WalkEntry>) -> Seq<EntryModel> {
    entries.map_values(|e: WalkEntry| e@)
}

/// Whether a file or directory name is hidden: it starts with a dot.
pub fn is_hidden(name: &str) -> (r: bool)
    ensures
        r == is_hidden_name(name@),
{
    name.unicode_len() > 0 && name.get_char(0) == '.'
}

/// Whether none of the components is hidden.
fn visible(components: &Vec<String>) -> (r: bool)
    ensures
        r == is_visible(components@.map_values(|c: String| c@)),
{
    let ghost names = components@.map_values(|c: String| c@);
    let n = components.len();
    let mut i: usize = 0;
    while i < n
        invariant
            n == components@.len(),
            names == components@.map_values(|c: String| c@),
            i <= n,
            forall|j: int| 0 <= j < i ==> !is_hidden_name(#[trigger] names[j]),
        decreases n - i,
    {
        if is_hidden(components[i].as_str()) {
            assert(is_hidden_name(names[i as int]));
            return false;
        }
        i = i + 1;
    }
    true
}

/// The URL under which a file is served.
fn create_url(folder_name: &str, components: &Vec<String>) -> (r: String)
    ensures
        r@ == route_url(folder_name@, components@.map_values(|c: String| c@)),
{
    let ghost names = components@.map_values(|c: String| c@);
    let mut url = String::from_str("/");
    url.append(folder_name);
    let n = components.len();
    let mut i: usize = 0;
    while i < n
        invariant
            n == components@.len(),
            names == components@.map_values(|c: String| c@),
            i <= n,
            url@ == "/"@ + folder_name@ + slash_path(names.take(i as int)),
        decreases n - i,
    {
        url.append("/");
        url.append(components[i].as_str());
        proof {
            let t = names.take(i + 1);
            assert(t.drop_last() =~= names.take(i as int));
        }
        i = i + 1;
    }
    assert(names.take(n as int) =~= names);
    url
}

/// The stem of a file name: the name up to its last dot, or the whole name
/// when it holds no dot or its only dot starts it.
pub open spec fn stem(name: Seq<char>) -> Seq<char> {
    let k = last_dot(name, name.len() as int);
    if k <= 0 {
        name
    } else {
        name.take(k)
    }
}

/// The position of the last dot before position `end`, or -1.
pub open spec fn last_dot(name: Seq<char>, end: int) -> int
    decreases end,
{
    if end <= 0 {
        -1
    } else if name[end - 1] == '.' {
        end - 1
    } else {
        last_dot(name, end - 1)
    }
}

/// The entry is a served file whose stem is `module`.
pub open spec fn is_module_file(e: EntryModel, module: Seq<char>) -> bool {
    &&& e.is_served()
    &&& e.components.len() > 0
    &&& stem(e.components.last()) == module
}

/// The stem of a file name.
fn name_stem(name: &str) -> (r: String)
    ensures
        r@ == stem(name@),
{
    let chars = chars_of(name);
    let n = chars.len();
    let mut end = n;
    while end > 0 && chars[end - 1] != '.'
        invariant
            end <= n,
            n == name@.len(),
            chars@ == name@,
            last_dot(name@, end as int) == last_dot(name@, n as int),
        decreases end,
    {
        end = end - 1;
    }
    if end <= 1 {
        String::from_str(name)
    } else {
        text_between(name, 0, end - 1)
    }
}

/// The first entry of a walk that is a served file whose stem is `module`:
/// where the module's source lies.
pub fn locate_file(entries: &Vec<WalkEntry>, module: &str) -> (r: Option<usize>)
    ensures
        match r {
            Some(i) => i < entries@.len() && is_module_file(entries@[i as int]@, module@)
                && forall|j: int| 0 <= j < i ==> !is_module_file(#[trigger] entries@[j]@, module@),
            None => forall|j: int|
                0 <= j < entries@.len() ==> !is_module_file(#[trigger] entries@[j]@, module@),
        },
{
    let wanted = String::from_str(module);
    let n = entries.len();
    let mut i: usize = 0;
    while i < n
        invariant
            n == entries@.len(),
            i <= n,
            wanted@ == module@,
            forall|j: int| 0 <= j < i ==> !is_module_file(#[trigger] entries@[j]@, module@),
        decreases n - i,
    {
        let e = &entries[i];
        let count = e.components.len();
        if e.is_file && count > 0 && visible(&e.components) {
            let s = name_stem(e.components[count - 1].as_str());
            if s == wanted {
                return Some(i);
            }
        }
        i = i + 1;
    }
    None
}

/// The static routes: URL paths mapped to the paths of the files that serve
/// them. Filled before serving starts and only read afterwards.
pub struct Router {
    pub static_routes: StringHashMap<String>,
}

impl View for Router {
    type V = Map<Seq<char>, Seq<char>>;

    open spec fn view(&self) -> Map<Seq<char>, Seq<char>> {
        self.static_routes@.map_values(|p: String| p@)
    }
}

impl Router {
    /// A router without routes.
    pub fn new() -> (r: Router)
        ensures
            r@ == Map::<Seq<char>, Seq<char>>::empty(),
    {
        let r = Router { static_routes: StringHashMap::new() };
        r
    }

    /// A router holding the routes of one folder's walk.
    pub fn from(folder_name: &str, entries: &Vec<WalkEntry>) -> (r: Router)
        ensures
            r@ == register_spec(Map::empty(), folder_name@, entries_view(entries@)),
    {
        let mut router = Router::new();
        router.register_static_routes(folder_name, entries);
        router
    }

    /// Adds a route for each regular file that a walk over the folder called
    /// `folder_name` found outside hidden entries.
    pub fn register_static_routes(&mut self, folder_name: &str, entries: &Vec<WalkEntry>)
        ensures
            final(self)@ == register_spec(old(self)@, folder_name@, entries_view(entries@)),
    {
        let ghost start = self@;
        let ghost all = entries_view(entries@);
        let n = entries.len();
        let mut i: usize = 0;
        while i < n
            invariant
                n == entries@.len(),
                all == entries_view(entries@),
                i <= n,
                self@ == register_spec(start, folder_name@, all.take(i as int)),
            decreases n - i,
        {
            let entry = &entries[i];
            proof {
                let t = all.take(i + 1);
                assert(t.drop_last() =~= all.take(i as int));
            }
            if entry.is_file && visible(&entry.components) {
                let url = create_url(folder_name, &entry.components);
                self.static_routes.insert(url, entry.path.clone());
            }
            i = i + 1;
        }
        assert(all.take(n as int) =~= all);
    }

    /// Whether a URL path is served from a file.
    pub fn is_static_content(&self, path: &str) -> (r: bool)
        ensures
            r == self@.contains_key(path@),
    {
        self.static_routes.contains_key(path)
    }

    /// The path of the file that serves a URL path.
    pub fn get(&self, path: &str) -> (r: &str)
        requires
            self@.contains_key(path@),
        ensures
            r@ == self@[path@],
    {
        self.static_routes.get(path).unwrap().as_str()
    }
}

} // verus!
