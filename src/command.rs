//! The argument lists of the external commands.
use vstd::prelude::*;
use vstd::string::*;
use crate::image::{tag_reference, tagged, ImageReference};
use crate::labels::{labels_view, BuildLabel};

verus! {

/// The texts of a list of strings.
pub open spec fn strings_view(v: Seq<String>) -> Seq<Seq<char>> {
    v.map_values(|s: String| s@)
}

/// `key=value`.
pub open spec fn label_arg(key: Seq<char>, value: Seq<char>) -> Seq<char> {
    key + "="@ + value
}

/// `-t name:tag` for each extra tag, in order.
pub open spec fn tag_args(name: Seq<char>, tags: Seq<Seq<char>>) -> Seq<Seq<char>>
    decreases tags.len(),
{
    if tags.len() == 0 {
        Seq::empty()
    } else {
        tag_args(name, tags.drop_last()) + seq!["-t"@, tagged(name, tags.last())]
    }
}

/// `--label key=value` for each label, in order.
pub open spec fn label_args(labels: Seq<(Seq<char>, Seq<char>)>) -> Seq<Seq<char>>
    decreases labels.len(),
{
    if labels.len() == 0 {
        Seq::empty()
    } else {
        label_args(labels.drop_last()) + seq![
            "--label"@,
            label_arg(labels.last().0, labels.last().1),
        ]
    }
}

/// The arguments of the image build: the primary tag, the build file, each
/// extra tag, each label, and the project root as the build context.
pub open spec fn image_build_args_for(
    image: ImageReference,
    dockerfile: Seq<char>,
    tags: Seq<Seq<char>>,
    labels: Seq<(Seq<char>, Seq<char>)>,
) -> Seq<Seq<char>> {
    seq!["build"@, "-t"@, tagged(image.name@, image.tag@), "-f"@, dockerfile] + tag_args(
        image.name@,
        tags,
    ) + label_args(labels) + seq!["."@]
}

proof fn lemma_tag_args_len(name: Seq<char>, tags: Seq<Seq<char>>)
    ensures
        tag_args(name, tags).len() == 2 * tags.len(),
    decreases tags.len(),
{
    if tags.len() > 0 {
        lemma_tag_args_len(name, tags.drop_last());
    }
}

proof fn lemma_tag_arg_at(name: Seq<char>, tags: Seq<Seq<char>>, i: int)
    requires
        0 <= i < tags.len(),
    ensures
        tag_args(name, tags)[2 * i] == "-t"@,
        tag_args(name, tags)[2 * i + 1] == tagged(name, tags[i]),
    decreases tags.len(),
{
    lemma_tag_args_len(name, tags.drop_last());
    if i < tags.len() - 1 {
        lemma_tag_arg_at(name, tags.drop_last(), i);
    }
}

proof fn lemma_label_args_len(labels: Seq<(Seq<char>, Seq<char>)>)
    ensures
        label_args(labels).len() == 2 * labels.len(),
    decreases labels.len(),
{
    if labels.len() > 0 {
        lemma_label_args_len(labels.drop_last());
    }
}

proof fn lemma_label_arg_at(labels: Seq<(Seq<char>, Seq<char>)>, j: int)
    requires
        0 <= j < labels.len(),
    ensures
        label_args(labels)[2 * j] == "--label"@,
        label_args(labels)[2 * j + 1] == label_arg(labels[j].0, labels[j].1),
    decreases labels.len(),
{
    lemma_label_args_len(labels.drop_last());
    if j < labels.len() - 1 {
        lemma_label_arg_at(labels.drop_last(), j);
    }
}

/// The layout of the image build's arguments: `-t name:tag` first, `-f`
/// and the build file, then `-t name:t` for each extra tag `t` in its
/// place, then `--label key=value` for each label in its place, and the
/// build context last.
pub proof fn lemma_image_build_layout(
    image: ImageReference,
    dockerfile: Seq<char>,
    tags: Seq<Seq<char>>,
    labels: Seq<(Seq<char>, Seq<char>)>,
)
    ensures
        ({
            let args = image_build_args_for(image, dockerfile, tags, labels);
            let base = 5 + 2 * tags.len();
            &&& args.len() == base + 2 * labels.len() + 1
            &&& args[1] == "-t"@ && args[2] == tagged(image.name@, image.tag@)
            &&& args[3] == "-f"@ && args[4] == dockerfile
            &&& forall|i: int| 0 <= i < tags.len() ==> #[trigger] args[5 + 2 * i] == "-t"@
            &&& forall|i: int|
                0 <= i < tags.len() ==> #[trigger] args[6 + 2 * i] == tagged(image.name@, tags[i])
            &&& forall|j: int| 0 <= j < labels.len() ==> #[trigger] args[base + 2 * j] == "--label"@
            &&& forall|j: int|
                0 <= j < labels.len() ==> #[trigger] args[base + 2 * j + 1] == label_arg(
                    labels[j].0,
                    labels[j].1,
                )
            &&& args.last() == "."@
        }),
{
    lemma_tag_args_len(image.name@, tags);
    lemma_label_args_len(labels);
    let head = seq!["build"@, "-t"@, tagged(image.name@, image.tag@), "-f"@, dockerfile];
    let t = tag_args(image.name@, tags);
    let l = label_args(labels);
    let args = image_build_args_for(image, dockerfile, tags, labels);
    assert(args == head + t + l + seq!["."@]);
    assert forall|i: int| 0 <= i < tags.len() implies #[trigger] args[5 + 2 * i] == "-t"@ by {
        lemma_tag_arg_at(image.name@, tags, i);
        assert(args[5 + 2 * i] == t[2 * i]);
    }
    assert forall|i: int| 0 <= i < tags.len() implies #[trigger] args[6 + 2 * i] == tagged(
        image.name@,
        tags[i],
    ) by {
        lemma_tag_arg_at(image.name@, tags, i);
        assert(args[6 + 2 * i] == t[2 * i + 1]);
    }
    let base = 5 + 2 * tags.len();
    assert forall|j: int| 0 <= j < labels.len() implies #[trigger] args[base + 2 * j] == "--label"@ by {
        lemma_label_arg_at(labels, j);
        assert(args[base + 2 * j] == l[2 * j]);
    }
    assert forall|j: int| 0 <= j < labels.len() implies #[trigger] args[base + 2 * j + 1] == label_arg(
        labels[j].0,
        labels[j].1,
    ) by {
        lemma_label_arg_at(labels, j);
        assert(args[base + 2 * j + 1] == l[2 * j + 1]);
    }
    assert(args.len() == base + 2 * labels.len() + 1);
    assert(args.last() == "."@);
    assert(args[1] == "-t"@ && args[2] == tagged(image.name@, image.tag@));
    assert(args[3] == "-f"@ && args[4] == dockerfile);
}

fn push_text(args: &mut Vec<String>, s: &str)
    ensures
        strings_view(final(args)@) == strings_view(old(args)@).push(s@),
{
    args.push(String::from_str(s));
    assert(strings_view(args@) =~= strings_view(old(args)@).push(s@));
}

fn push_string(args: &mut Vec<String>, s: String)
    ensures
        strings_view(final(args)@) == strings_view(old(args)@).push(s@),
{
    let ghost v = s@;
    args.push(s);
    assert(strings_view(args@) =~= strings_view(old(args)@).push(v));
}

/// Appends `--label key=value` to the arguments.
pub fn add_label(args: &mut Vec<String>, key: &str, value: &str)
    ensures
        strings_view(final(args)@) == strings_view(old(args)@) + seq![
            "--label"@,
            label_arg(key@, value@),
        ],
{
    push_text(args, "--label");
    let mut pair = String::from_str(key);
    pair.append("=");
    pair.append(value);
    push_string(args, pair);
    assert(strings_view(args@) =~= strings_view(old(args)@) + seq![
        "--label"@,
        label_arg(key@, value@),
    ]);
}

/// The arguments of the project build: a release build.
pub fn project_build_args() -> (r: Vec<String>)
    ensures
        strings_view(r@) == seq!["build"@, "--release"@],
{
    let mut r: Vec<String> = Vec::new();
    push_text(&mut r, "build");
    push_text(&mut r, "--release");
    assert(strings_view(r@) =~= seq!["build"@, "--release"@]);
    r
}

/// The arguments of the image build.
pub fn image_build_args(
    image: &ImageReference,
    dockerfile: &str,
    extra_tags: &Vec<String>,
    labels: &Vec<BuildLabel>,
) -> (r: Vec<String>)
    ensures
        strings_view(r@) == image_build_args_for(
            *image,
            dockerfile@,
            strings_view(extra_tags@),
            labels_view(labels@),
        ),
{
    let mut args: Vec<String> = Vec::new();
    push_text(&mut args, "build");
    push_text(&mut args, "-t");
    push_string(&mut args, image.full_name());
    push_text(&mut args, "-f");
    push_text(&mut args, dockerfile);
    let ghost head = strings_view(args@);
    let ghost tags = strings_view(extra_tags@);
    let mut i: usize = 0;
    while i < extra_tags.len()
        invariant
            i <= extra_tags@.len(),
            tags == strings_view(extra_tags@),
            strings_view(args@) == head + tag_args(image.name@, tags.subrange(0, i as int)),
        decreases extra_tags@.len() - i,
    {
        push_text(&mut args, "-t");
        push_string(&mut args, tag_reference(image.name.as_str(), extra_tags[i].as_str()));
        assert(tags.subrange(0, i + 1).drop_last() =~= tags.subrange(0, i as int));
        assert(strings_view(args@) =~= head + tag_args(
            image.name@,
            tags.subrange(0, i + 1),
        ));
        i = i + 1;
    }
    assert(tags.subrange(0, i as int) =~= tags);
    let ghost middle = strings_view(args@);
    let ghost ls = labels_view(labels@);
    let mut j: usize = 0;
    while j < labels.len()
        invariant
            j <= labels@.len(),
            ls == labels_view(labels@),
            strings_view(args@) == middle + label_args(ls.subrange(0, j as int)),
        decreases labels@.len() - j,
    {
        add_label(&mut args, labels[j].key.as_str(), labels[j].value.as_str());
        assert(ls.subrange(0, j + 1).drop_last() =~= ls.subrange(0, j as int));
        assert(strings_view(args@) =~= middle + label_args(ls.subrange(0, j + 1)));
        j = j + 1;
    }
    assert(ls.subrange(0, j as int) =~= ls);
    push_text(&mut args, ".");
    assert(strings_view(args@) =~= image_build_args_for(
        *image,
        dockerfile@,
        strings_view(extra_tags@),
        labels_view(labels@),
    ));
    args
}

} // verus!
