//! Provenance labels: an ordered list of key/value pairs, built from the
//! optional values given on the command line and the computed defaults.
//! Keys may repeat; the order is the order handed to the image build.
use vstd::prelude::*;
use vstd::string::*;
use crate::clock::current_timestamp;
use crate::image::ImageReference;

verus! {

/// One provenance label.
#[derive(Clone, Debug)]
pub struct BuildLabel {
    pub key: String,
    pub value: String,
}

/// The optional label values; a missing one gives no label at all.
#[derive(Clone, Debug, Default)]
pub struct LabelOptions {
    pub title: Option<String>,
    pub description: Option<String>,
    pub authors: Option<String>,
    pub url: Option<String>,
    pub source: Option<String>,
    pub vendor: Option<String>,
    pub licenses: Option<String>,
    pub application_name: Option<String>,
}

/// The labels that the builder knows.
#[derive(Clone, Copy, Debug, PartialEq, Eq, Structural)]
pub enum LabelKind {
    Created,
    Version,
    Revision,
    Title,
    Description,
    Authors,
    Url,
    Source,
    Vendor,
    Licenses,
    ApplicationName,
}

pub open spec fn label_key(kind: LabelKind) -> Seq<char> {
    match kind {
        LabelKind::Created => "org.opencontainers.image.created"@,
        LabelKind::Version => "org.opencontainers.image.version"@,
        LabelKind::Revision => "org.opencontainers.image.revision"@,
        LabelKind::Title => "org.opencontainers.image.title"@,
        LabelKind::Description => "org.opencontainers.image.description"@,
        LabelKind::Authors => "org.opencontainers.image.authors"@,
        LabelKind::Url => "org.opencontainers.image.url"@,
        LabelKind::Source => "org.opencontainers.image.source"@,
        LabelKind::Vendor => "org.opencontainers.image.vendor"@,
        LabelKind::Licenses => "org.opencontainers.image.licenses"@,
        LabelKind::ApplicationName => "application_name"@,
    }
}

/// The key of a label, as text.
pub fn key_of(kind: LabelKind) -> (r: String)
    ensures
        r@ == label_key(kind),
{
    let key: &str = match kind {
        LabelKind::Created => "org.opencontainers.image.created",
        LabelKind::Version => "org.opencontainers.image.version",
        LabelKind::Revision => "org.opencontainers.image.revision",
        LabelKind::Title => "org.opencontainers.image.title",
        LabelKind::Description => "org.opencontainers.image.description",
        LabelKind::Authors => "org.opencontainers.image.authors",
        LabelKind::Url => "org.opencontainers.image.url",
        LabelKind::Source => "org.opencontainers.image.source",
        LabelKind::Vendor => "org.opencontainers.image.vendor",
        LabelKind::Licenses => "org.opencontainers.image.licenses",
        LabelKind::ApplicationName => "application_name",
    };
    String::from_str(key)
}

/// A label as a pair of key and value.
pub open spec fn label_view(l: BuildLabel) -> (Seq<char>, Seq<char>) {
    (l.key@, l.value@)
}

pub open spec fn labels_view(ls: Seq<BuildLabel>) -> Seq<(Seq<char>, Seq<char>)> {
    ls.map_values(|l: BuildLabel| label_view(l))
}

/// One label of the kind when the value is there, none when it is not.
pub open spec fn optional_label(kind: LabelKind, value: Option<String>) -> Seq<(Seq<char>, Seq<char>)> {
    match value {
        Some(v) => seq![(label_key(kind), v@)],
        None => Seq::empty(),
    }
}

/// The labels, in order: creation time, version (the image's tag), revision,
/// title (the image's name unless one is given), then each optional value
/// that is given.
pub open spec fn labels_for(
    options: LabelOptions,
    image: ImageReference,
    revision: Seq<char>,
    created: Seq<char>,
) -> Seq<(Seq<char>, Seq<char>)> {
    let title = match options.title {
        Some(t) => t@,
        None => image.name@,
    };
    seq![
        (label_key(LabelKind::Created), created),
        (label_key(LabelKind::Version), image.tag@),
        (label_key(LabelKind::Revision), revision),
        (label_key(LabelKind::Title), title),
    ] + optional_label(LabelKind::Description, options.description) + optional_label(
        LabelKind::Authors,
        options.authors,
    ) + optional_label(LabelKind::Url, options.url) + optional_label(
        LabelKind::Source,
        options.source,
    ) + optional_label(LabelKind::Vendor, options.vendor) + optional_label(
        LabelKind::Licenses,
        options.licenses,
    ) + optional_label(LabelKind::ApplicationName, options.application_name)
}

fn push_label(labels: &mut Vec<BuildLabel>, kind: LabelKind, value: &str)
    ensures
        labels_view(final(labels)@) == labels_view(old(labels)@) + seq![(label_key(kind), value@)],
{
    let l = BuildLabel { key: key_of(kind), value: String::from_str(value) };
    labels.push(l);
    assert(labels_view(labels@) =~= labels_view(old(labels)@) + seq![(label_key(kind), value@)]);
}

fn push_optional(labels: &mut Vec<BuildLabel>, kind: LabelKind, value: &Option<String>)
    ensures
        labels_view(final(labels)@) == labels_view(old(labels)@) + optional_label(kind, *value),
{
    match value {
        Some(v) => push_label(labels, kind, v.as_str()),
        None => {
            assert(labels_view(old(labels)@) + optional_label(kind, *value) =~= labels_view(
                old(labels)@,
            ));
        },
    }
}

/// The provenance labels of an image, given its revision and creation time.
pub fn build_labels(
    options: &LabelOptions,
    image: &ImageReference,
    revision: &str,
    created: &str,
) -> (r: Vec<BuildLabel>)
    ensures
        labels_view(r@) == labels_for(*options, *image, revision@, created@),
{
    let mut labels: Vec<BuildLabel> = Vec::new();
    push_label(&mut labels, LabelKind::Created, created);
    push_label(&mut labels, LabelKind::Version, image.tag.as_str());
    push_label(&mut labels, LabelKind::Revision, revision);
    match &options.title {
        Some(t) => push_label(&mut labels, LabelKind::Title, t.as_str()),
        None => push_label(&mut labels, LabelKind::Title, image.name.as_str()),
    }
    push_optional(&mut labels, LabelKind::Description, &options.description);
    push_optional(&mut labels, LabelKind::Authors, &options.authors);
    push_optional(&mut labels, LabelKind::Url, &options.url);
    push_optional(&mut labels, LabelKind::Source, &options.source);
    push_optional(&mut labels, LabelKind::Vendor, &options.vendor);
    push_optional(&mut labels, LabelKind::Licenses, &options.licenses);
    push_optional(&mut labels, LabelKind::ApplicationName, &options.application_name);
    assert(labels_view(labels@) =~= labels_for(*options, *image, revision@, created@));
    labels
}

/// How many labels in `labels` carry the key.
pub open spec fn count_key(labels: Seq<(Seq<char>, Seq<char>)>, key: Seq<char>) -> nat
    decreases labels.len(),
{
    if labels.len() == 0 {
        0
    } else {
        (if labels[0].0 == key {
            1nat
        } else {
            0nat
        }) + count_key(labels.drop_first(), key)
    }
}

proof fn lemma_count_key_concat(
    a: Seq<(Seq<char>, Seq<char>)>,
    b: Seq<(Seq<char>, Seq<char>)>,
    key: Seq<char>,
)
    ensures
        count_key(a + b, key) == count_key(a, key) + count_key(b, key),
    decreases a.len(),
{
    if a.len() == 0 {
        assert(a + b =~= b);
    } else {
        assert((a + b).drop_first() =~= a.drop_first() + b);
        lemma_count_key_concat(a.drop_first(), b, key);
    }
}

/// No two kinds of label share a key.
pub proof fn lemma_label_keys_distinct(a: LabelKind, b: LabelKind)
    ensures
        label_key(a) == label_key(b) <==> a == b,
{
    reveal_strlit("org.opencontainers.image.created");
    reveal_strlit("org.opencontainers.image.version");
    reveal_strlit("org.opencontainers.image.revision");
    reveal_strlit("org.opencontainers.image.title");
    reveal_strlit("org.opencontainers.image.description");
    reveal_strlit("org.opencontainers.image.authors");
    reveal_strlit("org.opencontainers.image.url");
    reveal_strlit("org.opencontainers.image.source");
    reveal_strlit("org.opencontainers.image.vendor");
    reveal_strlit("org.opencontainers.image.licenses");
    reveal_strlit("application_name");
    if a != b {
        assert(label_key(a).len() != label_key(b).len() || label_key(a)[25] != label_key(b)[25]
            || label_key(a)[26] != label_key(b)[26]);
    }
}

/// With no optional value given, there are exactly four labels, in this
/// order: creation time, version, revision, and the title, which is the
/// image's name.
pub proof fn lemma_labels_without_options(
    options: LabelOptions,
    image: ImageReference,
    revision: Seq<char>,
    created: Seq<char>,
)
    requires
        options.title is None,
        options.description is None,
        options.authors is None,
        options.url is None,
        options.source is None,
        options.vendor is None,
        options.licenses is None,
        options.application_name is None,
    ensures
        labels_for(options, image, revision, created) == seq![
            (label_key(LabelKind::Created), created),
            (label_key(LabelKind::Version), image.tag@),
            (label_key(LabelKind::Revision), revision),
            (label_key(LabelKind::Title), image.name@),
        ],
{
    assert(labels_for(options, image, revision, created) =~= seq![
        (label_key(LabelKind::Created), created),
        (label_key(LabelKind::Version), image.tag@),
        (label_key(LabelKind::Revision), revision),
        (label_key(LabelKind::Title), image.name@),
    ]);
}

proof fn lemma_count_optional(kind: LabelKind, value: Option<String>, key: Seq<char>)
    ensures
        count_key(optional_label(kind, value), key) == if value is Some && label_key(kind)
            == key {
            1nat
        } else {
            0nat
        },
{
    reveal_with_fuel(count_key, 2);
    if value is Some {
        assert(optional_label(kind, value).drop_first() =~= Seq::<(Seq<char>, Seq<char>)>::empty());
    }
}

/// A licenses value gives exactly one licenses label, which carries it; with
/// none there is no licenses label.
pub proof fn lemma_licenses_label(
    options: LabelOptions,
    image: ImageReference,
    revision: Seq<char>,
    created: Seq<char>,
)
    ensures
        ({
            let labels = labels_for(options, image, revision, created);
            let key = label_key(LabelKind::Licenses);
            match options.licenses {
                Some(l) => count_key(labels, key) == 1 && labels.contains((key, l@)),
                None => count_key(labels, key) == 0,
            }
        }),
{
    let key = label_key(LabelKind::Licenses);
    let title = match options.title {
        Some(t) => t@,
        None => image.name@,
    };
    let fixed = seq![
        (label_key(LabelKind::Created), created),
        (label_key(LabelKind::Version), image.tag@),
        (label_key(LabelKind::Revision), revision),
        (label_key(LabelKind::Title), title),
    ];
    let d = optional_label(LabelKind::Description, options.description);
    let a = optional_label(LabelKind::Authors, options.authors);
    let u = optional_label(LabelKind::Url, options.url);
    let s = optional_label(LabelKind::Source, options.source);
    let v = optional_label(LabelKind::Vendor, options.vendor);
    let l = optional_label(LabelKind::Licenses, options.licenses);
    let n = optional_label(LabelKind::ApplicationName, options.application_name);
    lemma_label_keys_distinct(LabelKind::Created, LabelKind::Licenses);
    lemma_label_keys_distinct(LabelKind::Version, LabelKind::Licenses);
    lemma_label_keys_distinct(LabelKind::Revision, LabelKind::Licenses);
    lemma_label_keys_distinct(LabelKind::Title, LabelKind::Licenses);
    lemma_label_keys_distinct(LabelKind::Description, LabelKind::Licenses);
    lemma_label_keys_distinct(LabelKind::Authors, LabelKind::Licenses);
    lemma_label_keys_distinct(LabelKind::Url, LabelKind::Licenses);
    lemma_label_keys_distinct(LabelKind::Source, LabelKind::Licenses);
    lemma_label_keys_distinct(LabelKind::Vendor, LabelKind::Licenses);
    lemma_label_keys_distinct(LabelKind::ApplicationName, LabelKind::Licenses);
    reveal_with_fuel(count_key, 5);
    lemma_count_optional(LabelKind::Description, options.description, key);
    lemma_count_optional(LabelKind::Authors, options.authors, key);
    lemma_count_optional(LabelKind::Url, options.url, key);
    lemma_count_optional(LabelKind::Source, options.source, key);
    lemma_count_optional(LabelKind::Vendor, options.vendor, key);
    lemma_count_optional(LabelKind::Licenses, options.licenses, key);
    lemma_count_optional(LabelKind::ApplicationName, options.application_name, key);
    lemma_count_key_concat(fixed, d, key);
    lemma_count_key_concat(fixed + d, a, key);
    lemma_count_key_concat(fixed + d + a, u, key);
    lemma_count_key_concat(fixed + d + a + u, s, key);
    lemma_count_key_concat(fixed + d + a + u + s, v, key);
    lemma_count_key_concat(fixed + d + a + u + s + v, l, key);
    lemma_count_key_concat(fixed + d + a + u + s + v + l, n, key);
    let labels = labels_for(options, image, revision, created);
    assert(labels == fixed + d + a + u + s + v + l + n);
    if let Some(lv) = options.licenses {
        let prefix = fixed + d + a + u + s + v;
        assert(labels[prefix.len() as int] == (key, lv@));
    }
}

/// The provenance labels of an image, created now: `None` when the clock
/// cannot be read as a time after 1970; otherwise the creation label holds
/// the current time, whatever it is, and the rest is as `build_labels` says.
pub fn build_labels_now(options: &LabelOptions, image: &ImageReference, revision: &str) -> (r:
    Option<Vec<BuildLabel>>)
    ensures
        r matches Some(ls) ==> {
            &&& ls@.len() >= 4
            &&& labels_view(ls@) == labels_for(*options, *image, revision@, ls@[0].value@)
            &&& ls@[0].value@.len() >= 20
            &&& ls@[0].value@.last() == 'Z'
        },
{
    let created = match current_timestamp() {
        None => return None,
        Some(t) => t,
    };
    let r = build_labels(options, image, revision, created.as_str());
    assert(labels_view(r@).len() == r@.len());
    assert(labels_for(*options, *image, revision@, created@).len() >= 4);
    assert(labels_view(r@)[0] == label_view(r@[0]));
    Some(r)
}

} // verus!
