//! The tag dictionary: raw `namespace:tag` keys mapped to localized
//! `Namespace:Name` display tags.
use vstd::prelude::*;
use vstd::string::*;
use crate::text::same_text;
use crate::json::{
    elements_of, is_object, json_elements, json_is_object, json_member, json_members, json_text,
    member, members_of, text_of,
};

verus! {

/// The map that a list of insertions leaves: a later key overrides an
/// earlier one.
pub open spec fn map_of(entries: Seq<(String, String)>) -> Map<Seq<char>, Seq<char>>
    decreases entries.len(),
{
    if entries.len() == 0 {
        Map::empty()
    } else {
        let last = entries.last();
        map_of(entries.drop_last()).insert(last.0@, last.1@)
    }
}

/// A raw tag translated: its display form when the dictionary has one,
/// itself otherwise.
pub open spec fn translated(dict: Map<Seq<char>, Seq<char>>, raw: Seq<char>) -> Seq<char> {
    if dict.contains_key(raw) {
        dict[raw]
    } else {
        raw
    }
}

/// One tag of a namespace in the dictionary snapshot. `name` is `None` when
/// the tag's entry is malformed (no object, or no `name` member): it is
/// skipped. A `name` member that is no string reads as empty.
pub struct TagSource {
    pub key: String,
    pub name: Option<String>,
}

/// One namespace of the dictionary snapshot. `tags` is `None` when the
/// namespace carries no tag object.
pub struct NamespaceSource {
    pub namespace: String,
    pub display_name: String,
    pub tags: Option<Vec<TagSource>>,
}

/// A tag of a snapshot namespace: its key and, unless skipped, its name.
pub type TagModel = (Seq<char>, Option<Seq<char>>);

/// A snapshot namespace: its name, display name and, if any, its tags.
pub type NamespaceModel = (Seq<char>, Seq<char>, Option<Seq<TagModel>>);

pub open spec fn tag_model(t: TagSource) -> TagModel {
    (
        t.key@,
        match t.name {
            Some(n) => Some(n@),
            None => None,
        },
    )
}

pub open spec fn namespace_model(s: NamespaceSource) -> NamespaceModel {
    (
        s.namespace@,
        s.display_name@,
        match s.tags {
            Some(ts) => Some(ts@.map_values(|t: TagSource| tag_model(t))),
            None => None,
        },
    )
}

pub open spec fn models_of(sources: Seq<NamespaceSource>) -> Seq<NamespaceModel> {
    sources.map_values(|s: NamespaceSource| namespace_model(s))
}

/// The namespace as raw tags spell it.
pub open spec fn namespace_key(ns: Seq<char>) -> Seq<char> {
    if ns == "reclass"@ {
        "category"@
    } else {
        ns
    }
}

/// The tag name as raw tags spell it.
pub open spec fn tag_key_name(k: Seq<char>) -> Seq<char> {
    if k == "artistacg"@ {
        "artist cg"@
    } else if k == "gamecg"@ {
        "game cg"@
    } else if k == "imageset"@ {
        "image set"@
    } else {
        k
    }
}

/// `m` after the rows of one namespace's tags, in order.
pub open spec fn with_tags(
    m: Map<Seq<char>, Seq<char>>,
    ns: Seq<char>,
    display: Seq<char>,
    tags: Seq<TagModel>,
) -> Map<Seq<char>, Seq<char>>
    decreases tags.len(),
{
    if tags.len() == 0 {
        m
    } else {
        let t = tags.last();
        let before = with_tags(m, ns, display, tags.drop_last());
        match t.1 {
            Some(n) => before.insert(ns + seq![':'] + tag_key_name(t.0), display + seq![':'] + n),
            None => before,
        }
    }
}

/// The dictionary that a snapshot's namespaces give, in order.
pub open spec fn dictionary_of(sources: Seq<NamespaceModel>) -> Map<Seq<char>, Seq<char>>
    decreases sources.len(),
{
    if sources.len() == 0 {
        Map::empty()
    } else {
        let s = sources.last();
        let before = dictionary_of(sources.drop_last());
        match s.2 {
            Some(ts) => with_tags(before, namespace_key(s.0), s.1, ts),
            None => before,
        }
    }
}

// ---------------------------------------------------------------- snapshot

/// The text of an optional value, empty when it is missing or no string.
pub open spec fn text_or_empty_of(v: Option<serde_json::Value>) -> Seq<char> {
    match v {
        Some(x) => match json_text(x) {
            Some(t) => t,
            None => Seq::empty(),
        },
        None => Seq::empty(),
    }
}

/// The tag that member `key: v` of a namespace's `data` object gives.
pub open spec fn snapshot_tag(key: Seq<char>, v: serde_json::Value) -> TagModel {
    (
        key,
        if json_is_object(v) {
            match json_member(v, "name"@) {
                Some(n) => Some(text_or_empty_of(Some(n))),
                None => None,
            }
        } else {
            None
        },
    )
}

/// The namespace that an element of the snapshot's `data` array gives.
pub open spec fn snapshot_namespace(item: serde_json::Value) -> NamespaceModel {
    (
        text_or_empty_of(json_member(item, "namespace"@)),
        match json_member(item, "frontMatters"@) {
            Some(fm) => text_or_empty_of(json_member(fm, "name"@)),
            None => Seq::empty(),
        },
        match json_member(item, "data"@) {
            Some(d) => match json_members(d) {
                Some(ms) => Some(
                    ms.map_values(|m: (Seq<char>, serde_json::Value)| snapshot_tag(m.0, m.1)),
                ),
                None => None,
            },
            None => None,
        },
    )
}

/// The elements of the snapshot's top-level `data` array, if it has one.
pub open spec fn snapshot_items(data: serde_json::Value) -> Option<Seq<serde_json::Value>> {
    match json_member(data, "data"@) {
        Some(d) => json_elements(d),
        None => None,
    }
}

/// The namespaces of a snapshot, if it has a top-level `data` array.
pub open spec fn snapshot_namespaces(data: serde_json::Value) -> Option<Seq<NamespaceModel>> {
    match snapshot_items(data) {
        Some(items) => Some(
            items.map_values(|it: serde_json::Value| snapshot_namespace(it)),
        ),
        None => None,
    }
}

fn namespace_key_exec(ns: &str) -> (r: String)
    ensures
        r@ == namespace_key(ns@),
{
    proof {
        reveal_strlit("reclass");
        reveal_strlit("category");
    }
    if same_text(ns, "reclass") {
        String::from_str("category")
    } else {
        String::from_str(ns)
    }
}

fn tag_key_name_exec(k: &str) -> (r: String)
    ensures
        r@ == tag_key_name(k@),
{
    proof {
        reveal_strlit("artistacg");
        reveal_strlit("artist cg");
        reveal_strlit("gamecg");
        reveal_strlit("game cg");
        reveal_strlit("imageset");
        reveal_strlit("image set");
    }
    if same_text(k, "artistacg") {
        String::from_str("artist cg")
    } else if same_text(k, "gamecg") {
        String::from_str("game cg")
    } else if same_text(k, "imageset") {
        String::from_str("image set")
    } else {
        String::from_str(k)
    }
}

/// A mapping from raw tag keys to display tags, kept as the list of its
/// insertions.
pub struct TagDictionary {
    entries: Vec<(String, String)>,
}

impl View for TagDictionary {
    type V = Map<Seq<char>, Seq<char>>;

    closed spec fn view(&self) -> Map<Seq<char>, Seq<char>> {
        map_of(self.entries@)
    }
}

impl TagDictionary {
    /// An empty dictionary.
    pub fn new() -> (r: TagDictionary)
        ensures
            r@ == Map::<Seq<char>, Seq<char>>::empty(),
    {
        TagDictionary { entries: Vec::new() }
    }

    /// Maps `key` to `value`, replacing what `key` mapped to before.
    pub fn insert(&mut self, key: String, value: String)
        ensures
            final(self)@ == old(self)@.insert(key@, value@),
    {
        let ghost before = self.entries@;
        self.entries.push((key, value));
        proof {
            assert(self.entries@.drop_last() =~= before);
        }
    }

    /// The dictionary of a snapshot: for each namespace and each of its tags
    /// that is not skipped, `<namespace>:<tag>` maps to
    /// `<namespace display name>:<tag name>`.
    pub fn from_sources(sources: &Vec<NamespaceSource>) -> (r: TagDictionary)
        ensures
            r@ == dictionary_of(models_of(sources@)),
    {
        let ghost ms = models_of(sources@);
        let mut dict = TagDictionary::new();
        let mut i: usize = 0;
        proof {
            assert(ms.take(0) =~= Seq::<NamespaceModel>::empty());
        }
        while i < sources.len()
            invariant
                ms == models_of(sources@),
                i <= sources@.len(),
                dict@ == dictionary_of(ms.take(i as int)),
            decreases sources@.len() - i,
        {
            proof {
                assert(ms.take(i + 1).drop_last() =~= ms.take(i as int));
                assert(ms.take(i + 1).last() == namespace_model(sources@[i as int]));
            }
            let src = &sources[i];
            match &src.tags {
                Some(tags) => {
                    let ns = namespace_key_exec(src.namespace.as_str());
                    let ghost start = dict@;
                    let ghost tm = tags@.map_values(|t: TagSource| tag_model(t));
                    let mut j: usize = 0;
                    proof {
                        assert(tm.take(0) =~= Seq::<TagModel>::empty());
                    }
                    while j < tags.len()
                        invariant
                            tm == tags@.map_values(|t: TagSource| tag_model(t)),
                            j <= tags@.len(),
                            dict@ == with_tags(start, ns@, src.display_name@, tm.take(j as int)),
                        decreases tags@.len() - j,
                    {
                        proof {
                            assert(tm.take(j + 1).drop_last() =~= tm.take(j as int));
                            assert(tm.take(j + 1).last() == tag_model(tags@[j as int]));
                        }
                        let t = &tags[j];
                        match &t.name {
                            Some(name) => {
                                proof {
                                    reveal_strlit(":");
                                }
                                let key = ns.clone().concat(":").concat(
                                    tag_key_name_exec(t.key.as_str()).as_str(),
                                );
                                let value = src.display_name.clone().concat(":").concat(
                                    name.as_str(),
                                );
                                proof {
                                    assert(key@ =~= ns@ + seq![':'] + tag_key_name(t.key@));
                                    assert(value@ =~= src.display_name@ + seq![':'] + name@);
                                }
                                dict.insert(key, value);
                            },
                            None => {},
                        }
                        j = j + 1;
                    }
                    proof {
                        assert(tm.take(tags@.len() as int) =~= tm);
                    }
                },
                None => {},
            }
            i = i + 1;
        }
        proof {
            assert(ms.take(sources@.len() as int) =~= ms);
        }
        dict
    }

    /// What `key` maps to, if anything.
    pub fn get(&self, key: &str) -> (r: Option<&String>)
        ensures
            match r {
                Some(v) => self@.contains_key(key@) && v@ == self@[key@],
                None => !self@.contains_key(key@),
            },
    {
        let mut i: usize = self.entries.len();
        proof {
            assert(self.entries@.take(i as int) =~= self.entries@);
        }
        while i > 0
            invariant
                i <= self.entries@.len(),
                map_of(self.entries@).contains_key(key@) == map_of(
                    self.entries@.take(i as int),
                ).contains_key(key@),
                map_of(self.entries@).contains_key(key@) ==> map_of(self.entries@)[key@]
                    == map_of(self.entries@.take(i as int))[key@],
            decreases i,
        {
            let ghost pre = self.entries@.take(i as int);
            proof {
                assert(pre.drop_last() =~= self.entries@.take(i - 1));
                assert(pre.last() == self.entries@[i - 1]);
            }
            let e = &self.entries[i - 1];
            if same_text(e.0.as_str(), key) {
                return Some(&e.1);
            }
            i = i - 1;
        }
        proof {
            assert(self.entries@.take(0) =~= Seq::<(String, String)>::empty());
        }
        None
    }

    /// The display form of a raw tag, or the raw tag itself when the
    /// dictionary does not know it.
    pub fn translate(&self, raw: &str) -> (r: String)
        ensures
            r@ == translated(self@, raw@),
    {
        match self.get(raw) {
            Some(v) => v.clone(),
            None => String::from_str(raw),
        }
    }
}

/// Why a dictionary snapshot could not be read.
#[derive(Debug, PartialEq, Eq, Structural, Clone, Copy)]
pub enum DictionaryError {
    /// The snapshot has no top-level `data` array.
    MalformedDictionary,
}

fn text_or_empty(v: &Option<serde_json::Value>) -> (r: String)
    ensures
        r@ == text_or_empty_of(*v),
{
    match v {
        Some(x) => match text_of(x) {
            Some(s) => s,
            None => String::new(),
        },
        None => String::new(),
    }
}

fn source_of_entry(item: &serde_json::Value) -> (r: NamespaceSource)
    ensures
        namespace_model(r) == snapshot_namespace(*item),
{
    let namespace = text_or_empty(&member(item, "namespace"));
    let display_name = match member(item, "frontMatters") {
        Some(fm) => text_or_empty(&member(&fm, "name")),
        None => String::new(),
    };
    let tags = match member(item, "data") {
        Some(data) => match members_of(&data) {
            Some(entries) => {
                let ghost mm = entries@.map_values(
                    |p: (String, serde_json::Value)| snapshot_tag(p.0@, p.1),
                );
                let mut tags: Vec<TagSource> = Vec::new();
                let mut i: usize = 0;
                while i < entries.len()
                    invariant
                        i <= entries@.len(),
                        tags@.len() == i,
                        forall|j: int|
                            0 <= j < i ==> tag_model(#[trigger] tags@[j]) == snapshot_tag(
                                entries@[j].0@,
                                entries@[j].1,
                            ),
                    decreases entries@.len() - i,
                {
                    let (key, value) = &entries[i];
                    let name = if is_object(value) {
                        match member(value, "name") {
                            Some(n) => Some(text_or_empty(&Some(n))),
                            None => None,
                        }
                    } else {
                        None
                    };
                    tags.push(TagSource { key: key.clone(), name });
                    i = i + 1;
                }
                proof {
                    let pm = entries@.map_values(
                        |p: (String, serde_json::Value)| (p.0@, p.1),
                    );
                    let a = tags@.map_values(|t: TagSource| tag_model(t));
                    let b = pm.map_values(
                        |m: (Seq<char>, serde_json::Value)| snapshot_tag(m.0, m.1),
                    );
                    assert(a =~= b);
                }
                Some(tags)
            },
            None => None,
        },
        None => None,
    };
    NamespaceSource { namespace, display_name, tags }
}

/// The namespaces of a dictionary snapshot (`{ data: [ { namespace,
/// frontMatters: { name }, data: { <tag>: { name } } } ] }`), with missing
/// texts read as empty; fails when it has no top-level `data` array.
pub fn sources_of_snapshot(data: &serde_json::Value) -> (r: Result<
    Vec<NamespaceSource>,
    DictionaryError,
>)
    ensures
        match snapshot_namespaces(*data) {
            None => r == Err::<Vec<NamespaceSource>, DictionaryError>(
                DictionaryError::MalformedDictionary,
            ),
            Some(ns) => r matches Ok(v) && models_of(v@) == ns,
        },
{
    let items = match member(data, "data") {
        Some(d) => match elements_of(&d) {
            Some(items) => items,
            None => {
                return Err(DictionaryError::MalformedDictionary);
            },
        },
        None => {
            return Err(DictionaryError::MalformedDictionary);
        },
    };
    let mut sources: Vec<NamespaceSource> = Vec::new();
    let mut i: usize = 0;
    while i < items.len()
        invariant
            i <= items@.len(),
            sources@.len() == i,
            forall|j: int|
                0 <= j < i ==> namespace_model(#[trigger] sources@[j]) == snapshot_namespace(
                    items@[j],
                ),
        decreases items@.len() - i,
    {
        sources.push(source_of_entry(&items[i]));
        i = i + 1;
    }
    proof {
        assert(models_of(sources@) =~= items@.map_values(
            |it: serde_json::Value| snapshot_namespace(it),
        ));
    }
    Ok(sources)
}

/// The tag dictionary of a snapshot; fails exactly when it has no top-level
/// `data` array.
pub fn parse_data(data: &serde_json::Value) -> (r: Result<TagDictionary, DictionaryError>)
    ensures
        match snapshot_namespaces(*data) {
            None => r == Err::<TagDictionary, DictionaryError>(
                DictionaryError::MalformedDictionary,
            ),
            Some(ns) => r matches Ok(d) && d@ == dictionary_of(ns),
        },
{
    let sources = sources_of_snapshot(data)?;
    Ok(TagDictionary::from_sources(&sources))
}

/// A raw tag that the dictionary does not know passes through translation
/// unchanged, and translating it again changes nothing.
pub proof fn lemma_unknown_tag_passes_through(dict: Map<Seq<char>, Seq<char>>, raw: Seq<char>)
    requires
        !dict.contains_key(raw),
    ensures
        translated(dict, raw) == raw,
        translated(dict, translated(dict, raw)) == raw,
{
}

} // verus!
