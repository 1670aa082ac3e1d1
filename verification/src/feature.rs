//! Features and their tags.

use vstd::prelude::*;
use vstd::std_specs::convert::FromSpecImpl;

verus! {

/// One tag as the contracts see it: key, then value.
pub type TagView = (Seq<char>, Seq<char>);

/// The text of each string of a list, in order.
pub open spec fn texts(strings: Seq<String>) -> Seq<Seq<char>> {
    Seq::new(strings.len(), |i: int| strings[i]@)
}

/// The tags of a list of string pairs, in order.
pub open spec fn tag_views(tags: Seq<(String, String)>) -> Seq<TagView> {
    Seq::new(tags.len(), |i: int| (tags[i].0@, tags[i].1@))
}

/// Keys and values paired by position, as far as both lists reach.
pub open spec fn paired(keys: Seq<Seq<char>>, values: Seq<Seq<char>>) -> Seq<TagView> {
    Seq::new(
        if keys.len() <= values.len() {
            keys.len()
        } else {
            values.len()
        },
        |i: int| (keys[i], values[i]),
    )
}

/// One matched record in the shape the engine emits: the tags arrive as two
/// parallel lists, `tag_keys[i]` belonging with `tag_values[i]`.
#[derive(Debug, Clone, PartialEq)]
pub struct FeatureData<C> {
    pub id: i64,
    pub kind: String,
    pub name: String,
    pub lon: C,
    pub lat: C,
    pub tag_keys: Vec<String>,
    pub tag_values: Vec<String>,
}

/// What a `FeatureData` holds.
pub struct FeatureDataView<C> {
    pub id: i64,
    pub kind: Seq<char>,
    pub name: Seq<char>,
    pub lon: C,
    pub lat: C,
    pub tag_keys: Seq<Seq<char>>,
    pub tag_values: Seq<Seq<char>>,
}

impl<C> View for FeatureData<C> {
    type V = FeatureDataView<C>;

    open spec fn view(&self) -> FeatureDataView<C> {
        FeatureDataView {
            id: self.id,
            kind: self.kind@,
            name: self.name@,
            lon: self.lon,
            lat: self.lat,
            tag_keys: texts(self.tag_keys@),
            tag_values: texts(self.tag_values@),
        }
    }
}

/// One matched entity: a point, a way or an area, with the point that stands
/// for it and its tags in the order the engine emitted them. A key may occur
/// more than once.
#[derive(Debug, Clone, PartialEq)]
pub struct Feature<C> {
    pub id: i64,
    pub kind: String,
    pub name: String,
    pub lon: C,
    pub lat: C,
    pub tags: Vec<(String, String)>,
}

/// What a `Feature` holds.
pub struct FeatureView<C> {
    pub id: i64,
    pub kind: Seq<char>,
    pub name: Seq<char>,
    pub lon: C,
    pub lat: C,
    pub tags: Seq<TagView>,
}

impl<C> View for Feature<C> {
    type V = FeatureView<C>;

    open spec fn view(&self) -> FeatureView<C> {
        FeatureView {
            id: self.id,
            kind: self.kind@,
            name: self.name@,
            lon: self.lon,
            lat: self.lat,
            tags: tag_views(self.tags@),
        }
    }
}

impl<C> FeatureDataView<C> {
    /// The feature that this record becomes: every field as it is, the two
    /// tag lists paired by position.
    pub open spec fn feature(self) -> FeatureView<C> {
        FeatureView {
            id: self.id,
            kind: self.kind,
            name: self.name,
            lon: self.lon,
            lat: self.lat,
            tags: paired(self.tag_keys, self.tag_values),
        }
    }
}

impl<C> FeatureView<C> {
    /// `i` is the first place in the tag list where `key` stands.
    pub open spec fn is_first_occurrence(self, key: Seq<char>, i: int) -> bool {
        &&& 0 <= i < self.tags.len()
        &&& self.tags[i].0 == key
        &&& forall|j: int| 0 <= j < i ==> (#[trigger] self.tags[j]).0 != key
    }

    /// Some tag has this key.
    pub open spec fn has_tag(self, key: Seq<char>) -> bool {
        exists|i: int| 0 <= i < self.tags.len() && (#[trigger] self.tags[i]).0 == key
    }

    /// The value of the first tag with this key, if there is one.
    pub open spec fn tag(self, key: Seq<char>) -> Option<Seq<char>> {
        if self.has_tag(key) {
            Some(self.tags[choose|i: int| self.is_first_occurrence(key, i)].1)
        } else {
            None
        }
    }
}

/// The text of an optional string slice.
pub open spec fn text_of(value: Option<&str>) -> Option<Seq<char>> {
    match value {
        Some(text) => Some(text@),
        None => None,
    }
}

impl<C> Feature<C> {
    /// The value of the first tag whose key is `key`.
    pub fn tag(&self, key: &str) -> (value: Option<&str>)
        ensures
            text_of(value) == self@.tag(key@),
    {
        let wanted = key.to_owned();
        let n = self.tags.len();
        let mut i: usize = 0;
        while i < n
            invariant
                n == self.tags.len(),
                i <= n,
                wanted@ == key@,
                forall|j: int| 0 <= j < i ==> (#[trigger] self@.tags[j]).0 != key@,
            decreases n - i,
        {
            if self.tags[i].0 == wanted {
                proof {
                    assert(self@.tags[i as int].0 == key@);
                    assert(self@.is_first_occurrence(key@, i as int));
                    let c = choose|c: int| self@.is_first_occurrence(key@, c);
                    assert(c == i);
                }
                return Some(self.tags[i].1.as_str());
            }
            i = i + 1;
        }
        None
    }

    /// Whether some tag has the key `key`.
    pub fn has_tag(&self, key: &str) -> (present: bool)
        ensures
            present == self@.has_tag(key@),
    {
        self.tag(key).is_some()
    }
}

/// Whatever the key, a feature has a tag with it exactly when looking the key
/// up yields a value.
pub proof fn lemma_has_tag_iff_tag_defined<C>(feature: FeatureView<C>, key: Seq<char>)
    ensures
        feature.has_tag(key) <==> feature.tag(key) is Some,
{
}

/// Where a key stands more than once, looking it up yields the value beside
/// its first occurrence: the value at `i` once no earlier tag has the key.
pub proof fn lemma_tag_is_first_occurrence<C>(feature: FeatureView<C>, key: Seq<char>, i: int)
    requires
        0 <= i < feature.tags.len(),
        feature.tags[i].0 == key,
        forall|j: int| 0 <= j < i ==> (#[trigger] feature.tags[j]).0 != key,
    ensures
        feature.tag(key) == Some(feature.tags[i].1),
{
    assert(feature.is_first_occurrence(key, i));
    let c = choose|c: int| feature.is_first_occurrence(key, c);
    assert(c == i);
}

/// The conversion is stated over views, in the `ensures` of `from` itself:
/// a feature holds growable lists, and ghost code cannot write one down.
impl<C> FromSpecImpl<FeatureData<C>> for Feature<C> {
    open spec fn obeys_from_spec() -> bool {
        false
    }

    open spec fn from_spec(data: FeatureData<C>) -> Self {
        arbitrary()
    }
}

/// Pairs `keys[i]` with `values[i]` for every position that both lists have,
/// moving the strings.
fn pair_up(keys: Vec<String>, values: Vec<String>) -> (tags: Vec<(String, String)>)
    ensures
        tag_views(tags@) == paired(texts(keys@), texts(values@)),
{
    let mut keys_left = keys;
    let mut values_left = values;
    let n = if keys_left.len() <= values_left.len() {
        keys_left.len()
    } else {
        values_left.len()
    };
    keys_left.truncate(n);
    values_left.truncate(n);
    // Move the pairs out from the back, then turn the list around.
    let mut backwards: Vec<(String, String)> = Vec::new();
    while backwards.len() < n
        invariant
            n <= keys.len(),
            n <= values.len(),
            backwards.len() <= n,
            keys_left@ == keys@.take(n - backwards.len()),
            values_left@ == values@.take(n - backwards.len()),
            forall|j: int|
                0 <= j < backwards.len() ==> #[trigger] backwards[j] == (
                    keys[n - 1 - j],
                    values[n - 1 - j],
                ),
        decreases n - backwards.len(),
    {
        let key = keys_left.pop();
        let value = values_left.pop();
        match (key, value) {
            (Some(k), Some(v)) => {
                backwards.push((k, v));
            },
            _ => {
                assert(false);
            },
        }
    }
    let ghost turned = backwards@;
    let mut tags: Vec<(String, String)> = Vec::new();
    while tags.len() < n
        invariant
            turned.len() == n,
            tags.len() <= n,
            backwards@ == turned.take(n - tags.len()),
            forall|j: int| 0 <= j < tags.len() ==> #[trigger] tags[j] == turned[n - 1 - j],
        decreases n - tags.len(),
    {
        match backwards.pop() {
            Some(pair) => {
                tags.push(pair);
            },
            None => {
                assert(false);
            },
        }
    }
    assert(tag_views(tags@) =~= paired(texts(keys@), texts(values@)));
    tags
}

impl<C> From<FeatureData<C>> for Feature<C> {
    /// Turns an engine record into a feature, pairing each key with the value
    /// at the same position.
    fn from(data: FeatureData<C>) -> (feature: Self)
        ensures
            feature@ == data@.feature(),
    {
        Feature {
            id: data.id,
            kind: data.kind,
            name: data.name,
            lon: data.lon,
            lat: data.lat,
            tags: pair_up(data.tag_keys, data.tag_values),
        }
    }
}

} // verus!
