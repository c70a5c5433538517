//! Where the images are kept: for the image `name:tag` the directory
//! `/var/lib/rocker/images/<name>/<tag>`, with the record in `image.json`
//! and the file tree under `rootfs`.

use crate::clock::is_reading_text;
use crate::error::{RuntimeError, RuntimeErrorView};
use crate::image::info::{full_name_of, image_id_of, ImageInfo, ImageInfoView};
use crate::text::{
    chars_of, decimal, decimal_string, digit_str, join, join_path, lemma_first_index,
    lemma_lex_less_one_way, lemma_lex_not_less_chain, lex_less, text_less, texts_view,
};
use vstd::prelude::*;

verus! {

/// The bytes of a kilobyte, of a megabyte and of a gigabyte, by powers of
/// 1024.
pub const KB: u64 = 1024;

pub const MB: u64 = 1024 * 1024;

pub const GB: u64 = 1024 * 1024 * 1024;

/// The store of the images.
pub struct ImageStore;

/// The directory of the image `name:tag`.
pub open spec fn image_dir_of(name: Seq<char>, tag: Seq<char>) -> Seq<char> {
    join_path(join_path("/var/lib/rocker/images"@, name), tag)
}

/// The directory of all the images called `name`.
pub open spec fn name_dir_of(name: Seq<char>) -> Seq<char> {
    join_path("/var/lib/rocker/images"@, name)
}

/// The directory of the file tree of the image `name:tag`.
pub open spec fn rootfs_dir_of(name: Seq<char>, tag: Seq<char>) -> Seq<char> {
    join_path(image_dir_of(name, tag), "rootfs"@)
}

/// The file that holds the record of the image `name:tag`.
pub open spec fn metadata_path_of(name: Seq<char>, tag: Seq<char>) -> Seq<char> {
    join_path(image_dir_of(name, tag), "image.json"@)
}

/// Whether a text can be one step of a path: it is not empty and holds no
/// slash.
pub open spec fn is_path_step(text: Seq<char>) -> bool {
    text.len() > 0 && !text.contains('/')
}

/// Two images share a directory only if they share name and tag, as long
/// as names and tags are single steps of a path.
pub proof fn lemma_one_directory_per_image(
    name: Seq<char>,
    tag: Seq<char>,
    other_name: Seq<char>,
    other_tag: Seq<char>,
)
    requires
        is_path_step(name),
        is_path_step(tag),
        is_path_step(other_name),
        is_path_step(other_tag),
        image_dir_of(name, tag) == image_dir_of(other_name, other_tag),
    ensures
        name == other_name,
        tag == other_tag,
{
    reveal_strlit("/var/lib/rocker/images");
    let root = "/var/lib/rocker/images"@ + seq!['/'];
    let slash = seq!['/'];
    let dir = image_dir_of(name, tag);
    let tail = name + slash + tag;
    let other_tail = other_name + slash + other_tag;
    assert(name[0] != '/' && tag[0] != '/' && other_name[0] != '/' && other_tag[0] != '/');
    assert(name.last() != '/' && other_name.last() != '/');
    assert(join_path("/var/lib/rocker/images"@, name) =~= root + name);
    assert(join_path("/var/lib/rocker/images"@, other_name) =~= root + other_name);
    assert((root + name).last() == name.last());
    assert((root + other_name).last() == other_name.last());
    assert(dir =~= root + tail);
    assert(image_dir_of(other_name, other_tag) =~= root + other_tail);
    assert(tail =~= (root + tail).skip(root.len() as int));
    assert(other_tail =~= (root + other_tail).skip(root.len() as int));
    assert(tail == other_tail);
    assert forall|j: int| 0 <= j < name.len() implies tail[j] != '/' by {
        assert(tail[j] == name[j]);
    }
    assert forall|j: int| 0 <= j < other_name.len() implies other_tail[j] != '/' by {
        assert(other_tail[j] == other_name[j]);
    }
    assert(tail[name.len() as int] == '/');
    assert(other_tail[other_name.len() as int] == '/');
    lemma_first_index(tail, '/', name.len() as int);
    lemma_first_index(other_tail, '/', other_name.len() as int);
    assert(name =~= tail.take(name.len() as int));
    assert(other_name =~= other_tail.take(other_name.len() as int));
    assert(tag =~= tail.skip(name.len() as int + 1));
    assert(other_tag =~= other_tail.skip(other_name.len() as int + 1));
}

/// The failure to find the image `name:tag`.
pub open spec fn image_not_found(name: Seq<char>, tag: Seq<char>) -> RuntimeErrorView {
    RuntimeErrorView::MetadataNotFound { name: full_name_of(name, tag) }
}

/// `size` in tenths of `unit`, to the nearest tenth; of two tenths that are
/// equally near, the even one.
pub open spec fn tenths_of(size: nat, unit: nat) -> nat {
    let q = size * 10 / unit;
    let r = size * 10 % unit;
    if 2 * r > unit || (2 * r == unit && q % 2 == 1) {
        q + 1
    } else {
        q
    }
}

/// `size` in `unit`, with one digit after the point.
pub open spec fn scaled_text(size: nat, unit: nat) -> Seq<char> {
    decimal(tenths_of(size, unit) / 10) + "."@ + decimal(tenths_of(size, unit) % 10)
}

/// A size in bytes as a person reads it: in bytes below a kilobyte, else in
/// the largest of kilobyte, megabyte and gigabyte that it reaches, with one
/// digit after the point.
pub open spec fn size_text(size: nat) -> Seq<char> {
    if size >= GB {
        scaled_text(size, GB as nat) + "GB"@
    } else if size >= MB {
        scaled_text(size, MB as nat) + "MB"@
    } else if size >= KB {
        scaled_text(size, KB as nat) + "KB"@
    } else {
        decimal(size) + "B"@
    }
}

/// The sum of the sizes.
pub open spec fn total_of(sizes: Seq<u64>) -> nat
    decreases sizes.len(),
{
    if sizes.len() == 0 {
        0
    } else {
        total_of(sizes.drop_last()) + sizes.last() as nat
    }
}

/// The images of a list, each by its view.
pub open spec fn images_view(images: Seq<ImageInfo>) -> Seq<ImageInfoView> {
    Seq::new(images.len(), |k: int| images[k]@)
}

/// Whether no image of the list was made before one that follows it.
pub open spec fn newest_first(images: Seq<ImageInfoView>) -> bool {
    forall|i: int, j: int|
        0 <= i < j < images.len() ==> !lex_less(
            (#[trigger] images[i]).created_time,
            (#[trigger] images[j]).created_time,
        )
}

/// Whether an image was made at `time`.
pub open spec fn made_at_time(time: Seq<char>) -> spec_fn(ImageInfoView) -> bool {
    |image: ImageInfoView| image.created_time == time
}

/// The images of the list that were made at `time`, in the list's order.
pub open spec fn made_at(images: Seq<ImageInfoView>, time: Seq<char>) -> Seq<ImageInfoView> {
    images.filter(made_at_time(time))
}

/// What importing an image takes: the directories to make, with those
/// above them; the arguments that make the archive tool unpack the archive
/// into the file tree; and the file that takes the record once the size of
/// the file tree is known.
#[derive(Debug)]
pub struct ImportPlan {
    pub image_dir: String,
    pub rootfs_dir: String,
    pub tar_args: Vec<String>,
    pub metadata_path: String,
}

/// An `ImportPlan` with its texts as sequences of characters.
pub struct ImportPlanView {
    pub image_dir: Seq<char>,
    pub rootfs_dir: Seq<char>,
    pub tar_args: Seq<Seq<char>>,
    pub metadata_path: Seq<char>,
}

impl View for ImportPlan {
    type V = ImportPlanView;

    open spec fn view(&self) -> ImportPlanView {
        ImportPlanView {
            image_dir: self.image_dir@,
            rootfs_dir: self.rootfs_dir@,
            tar_args: texts_view(self.tar_args@),
            metadata_path: self.metadata_path@,
        }
    }
}

/// What importing the archive `tar_file` as the image `name:tag` takes.
pub open spec fn import_plan_of(
    tar_file: Seq<char>,
    name: Seq<char>,
    tag: Seq<char>,
) -> ImportPlanView {
    ImportPlanView {
        image_dir: image_dir_of(name, tag),
        rootfs_dir: rootfs_dir_of(name, tag),
        tar_args: seq!["-xf"@, tar_file, "-C"@, rootfs_dir_of(name, tag)],
        metadata_path: metadata_path_of(name, tag),
    }
}

/// What deleting an image takes: `image_dir` is removed with all in it;
/// then `name_dir` is removed if it is there and empty, and a failure to do
/// so is passed over.
#[derive(Debug)]
pub struct DeletePlan {
    pub image_dir: String,
    pub name_dir: String,
}

/// Putting an image into a list that is ordered keeps it ordered, if the
/// images before its place were made after it and the image at its place
/// was not. Of the images made at one time, the new one comes first.
proof fn lemma_insert_in_order(images: Seq<ImageInfoView>, p: int, x: ImageInfoView)
    requires
        newest_first(images),
        0 <= p <= images.len(),
        forall|j: int| 0 <= j < p ==> lex_less(x.created_time, (#[trigger] images[j]).created_time),
        p < images.len() ==> !lex_less(x.created_time, images[p].created_time),
    ensures
        newest_first(images.insert(p, x)),
        forall|time: Seq<char>| #[trigger]
            made_at(images.insert(p, x), time) == made_at(seq![x], time) + made_at(images, time),
{
    let after = images.insert(p, x);
    assert forall|i: int, j: int| 0 <= i < j < after.len() implies !lex_less(
        (#[trigger] after[i]).created_time,
        (#[trigger] after[j]).created_time,
    ) by {
        if i < p && j == p {
            lemma_lex_less_one_way(x.created_time, images[i].created_time);
        } else if i < p && j > p {
            assert(after[i] == images[i] && after[j] == images[j - 1]);
        } else if i == p {
            assert(after[j] == images[j - 1]);
            if j - 1 > p {
                lemma_lex_not_less_chain(
                    x.created_time,
                    images[p].created_time,
                    images[j - 1].created_time,
                );
            }
        } else if i > p {
            assert(after[i] == images[i - 1] && after[j] == images[j - 1]);
        } else {
            assert(after[i] == images[i] && after[j] == images[j]);
        }
    }
    assert forall|time: Seq<char>| #[trigger]
        made_at(after, time) == made_at(seq![x], time) + made_at(images, time) by {
        let pred = made_at_time(time);
        let head = images.subrange(0, p);
        let tail = images.subrange(p, images.len() as int);
        assert(images =~= head + tail);
        assert(after =~= (head + seq![x]) + tail);
        Seq::filter_distributes_over_add(head, tail, pred);
        Seq::filter_distributes_over_add(head + seq![x], tail, pred);
        Seq::filter_distributes_over_add(head, seq![x], pred);
        if x.created_time == time {
            assert forall|j: int| 0 <= j < head.len() implies !pred(#[trigger] head[j]) by {
                assert(head[j] == images[j]);
                lemma_lex_less_one_way(x.created_time, images[j].created_time);
            }
            lemma_none_kept(head, time);
            assert(head.filter(pred) + seq![x].filter(pred) =~= seq![x].filter(pred)
                + head.filter(pred));
        } else {
            assert(!pred(seq![x][0]));
            lemma_none_kept(seq![x], time);
        }
        assert(made_at(after, time) =~= made_at(seq![x], time) + made_at(images, time));
    }
}

/// Of a list in which no image was made at `time`, none is kept for `time`.
proof fn lemma_none_kept(images: Seq<ImageInfoView>, time: Seq<char>)
    requires
        forall|j: int| 0 <= j < images.len() ==> !made_at_time(time)(#[trigger] images[j]),
    ensures
        images.filter(made_at_time(time)).len() == 0,
    decreases images.len(),
{
    reveal(Seq::filter);
    if images.len() > 0 {
        assert forall|j: int| 0 <= j < images.drop_last().len() implies !made_at_time(time)(
            #[trigger] images.drop_last()[j],
        ) by {
            assert(images.drop_last()[j] == images[j]);
        }
        lemma_none_kept(images.drop_last(), time);
        assert(!made_at_time(time)(images[images.len() - 1]));
    }
}

/// `size` in tenths of a kilobyte, a megabyte or a gigabyte.
fn tenths(size: u64, unit: u64) -> (t: u64)
    requires
        unit == KB || unit == MB || unit == GB,
    ensures
        t == tenths_of(size as nat, unit as nat),
{
    let scaled: u128 = (size as u128) * 10;
    let (q, r): (u128, u128) = if unit == KB {
        (scaled / 1024, scaled % 1024)
    } else if unit == MB {
        (scaled / 1048576, scaled % 1048576)
    } else {
        (scaled / 1073741824, scaled % 1073741824)
    };
    let rounded: u128 = if 2 * r > (unit as u128) || (2 * r == (unit as u128) && q % 2 == 1) {
        q + 1
    } else {
        q
    };
    rounded as u64
}

/// `size` in a unit, with one digit after the point, and the unit's name.
fn scaled(size: u64, unit: u64, suffix: &str) -> (text: String)
    requires
        unit == KB || unit == MB || unit == GB,
    ensures
        text@ == scaled_text(size as nat, unit as nat) + suffix@,
{
    let t: u64 = tenths(size, unit);
    let digit: u8 = (t % 10) as u8;
    assert(decimal((t % 10) as nat) =~= seq![crate::text::digit_char(digit as int)]);
    decimal_string(t / 10).concat(".").concat(digit_str(digit)).concat(suffix)
}

/// Whether `a` was made before `b`.
fn made_before(a: &ImageInfo, b: &ImageInfo) -> (before: bool)
    ensures
        before == lex_less(a.created_time@, b.created_time@),
{
    let ta = chars_of(a.created_time.as_str());
    let tb = chars_of(b.created_time.as_str());
    text_less(&ta, &tb)
}

impl ImageStore {
    /// The directory of the image `name:tag`.
    pub fn image_dir(name: &str, tag: &str) -> (path: String)
        ensures
            path@ == image_dir_of(name@, tag@),
    {
        let name_dir = join("/var/lib/rocker/images", name);
        join(name_dir.as_str(), tag)
    }

    /// The file that holds the record of the image `name:tag`.
    pub fn metadata_path(name: &str, tag: &str) -> (path: String)
        ensures
            path@ == metadata_path_of(name@, tag@),
    {
        let dir = ImageStore::image_dir(name, tag);
        join(dir.as_str(), "image.json")
    }

    /// The directory of the file tree of the image `name:tag`, whether it is
    /// there or not.
    pub fn rootfs_dir(name: &str, tag: &str) -> (path: String)
        ensures
            path@ == rootfs_dir_of(name@, tag@),
    {
        let dir = ImageStore::image_dir(name, tag);
        join(dir.as_str(), "rootfs")
    }

    /// The directory of the file tree of the image `name:tag`, given
    /// whether it is there.
    pub fn rootfs_path(name: &str, tag: &str, present: bool) -> (path: Result<String, RuntimeError>)
        ensures
            present ==> path is Ok && path->Ok_0@ == rootfs_dir_of(name@, tag@),
            !present ==> path is Err && path->Err_0@ == image_not_found(name@, tag@),
    {
        if present {
            Ok(ImageStore::rootfs_dir(name, tag))
        } else {
            Err(
                RuntimeError::MetadataNotFound {
                    name: String::from_str(name).concat(":").concat(tag),
                },
            )
        }
    }

    /// The record of the image `name:tag`, given what was read of it.
    pub fn load(name: &str, tag: &str, found: Option<ImageInfo>) -> (info: Result<
        ImageInfo,
        RuntimeError,
    >)
        ensures
            match found {
                Some(i) => info is Ok && info->Ok_0 == i,
                None => info is Err && info->Err_0@ == image_not_found(name@, tag@),
            },
    {
        match found {
            Some(i) => Ok(i),
            None => Err(
                RuntimeError::MetadataNotFound {
                    name: String::from_str(name).concat(":").concat(tag),
                },
            ),
        }
    }

    /// What importing the archive `tar_file` as the image `name:tag` takes,
    /// given whether the archive is there.
    pub fn import(tar_file: &str, name: &str, tag: &str, tar_present: bool) -> (plan: Result<
        ImportPlan,
        RuntimeError,
    >)
        ensures
            tar_present ==> plan is Ok && plan->Ok_0@ == import_plan_of(tar_file@, name@, tag@),
            !tar_present ==> plan is Err && plan->Err_0@ == (RuntimeErrorView::FileNotFound {
                path: tar_file@,
            }),
    {
        if !tar_present {
            return Err(RuntimeError::FileNotFound { path: String::from_str(tar_file) });
        }
        let rootfs_dir = ImageStore::rootfs_dir(name, tag);
        let mut tar_args: Vec<String> = Vec::new();
        tar_args.push(String::from_str("-xf"));
        tar_args.push(String::from_str(tar_file));
        tar_args.push(String::from_str("-C"));
        tar_args.push(rootfs_dir.clone());
        assert(texts_view(tar_args@) =~= seq![
            "-xf"@,
            tar_file@,
            "-C"@,
            rootfs_dir_of(name@, tag@),
        ]);
        Ok(
            ImportPlan {
                image_dir: ImageStore::image_dir(name, tag),
                rootfs_dir,
                tar_args,
                metadata_path: ImageStore::metadata_path(name, tag),
            },
        )
    }

    /// How the archive tool's run ends the import: with a failure that
    /// carries what the tool wrote to its error output, unless it succeeded.
    pub fn extracted(success: bool, stderr: &str) -> (end: Result<(), RuntimeError>)
        ensures
            success ==> end is Ok,
            !success ==> end is Err && end->Err_0@ == (RuntimeErrorView::TarFailed {
                stderr: stderr@,
            }),
    {
        if success {
            Ok(())
        } else {
            Err(RuntimeError::TarFailed { stderr: String::from_str(stderr) })
        }
    }

    /// The size of a file tree, given the sizes of its files: their sum, or
    /// the largest number there is if the sum is larger.
    pub fn calculate_dir_size(sizes: &Vec<u64>) -> (total: u64)
        ensures
            total == if total_of(sizes@) <= u64::MAX {
                total_of(sizes@)
            } else {
                u64::MAX as nat
            },
    {
        let mut total: u64 = 0;
        let mut k: usize = 0;
        assert(sizes@.take(0) =~= Seq::<u64>::empty());
        while k < sizes.len()
            invariant
                k <= sizes.len(),
                total == if total_of(sizes@.take(k as int)) <= u64::MAX {
                    total_of(sizes@.take(k as int))
                } else {
                    u64::MAX as nat
                },
            decreases sizes.len() - k,
        {
            assert(sizes@.take(k + 1).drop_last() =~= sizes@.take(k as int));
            assert(sizes@.take(k + 1).last() == sizes@[k as int]);
            total = total.saturating_add(sizes[k]);
            k = k + 1;
        }
        assert(sizes@.take(sizes.len() as int) =~= sizes@);
        total
    }

    /// The record of an image that was just imported as `name:tag`, given
    /// the sizes of the files in its file tree: its size is that of the
    /// file tree.
    pub fn imported_record(name: &str, tag: &str, sizes: &Vec<u64>) -> (info: ImageInfo)
        ensures
            info.name@ == name@,
            info.tag@ == tag@,
            info.size == if total_of(sizes@) <= u64::MAX {
                total_of(sizes@)
            } else {
                u64::MAX as nat
            },
            info.id@ == image_id_of(name@, tag@),
            is_reading_text(info.created_time@),
    {
        ImageInfo::new(
            String::from_str(name),
            String::from_str(tag),
            ImageStore::calculate_dir_size(sizes),
        )
    }

    /// The images in the order in which they are listed, given the images
    /// that were found: the newest first, and those made at the same time
    /// in the order in which they were found.
    pub fn list_all(found: Vec<ImageInfo>) -> (images: Vec<ImageInfo>)
        ensures
            images.len() == found.len(),
            newest_first(images_view(images@)),
            forall|time: Seq<char>| #[trigger]
                made_at(images_view(images@), time) == made_at(images_view(found@), time),
    {
        let ghost all = images_view(found@);
        let mut rest = found;
        let mut images: Vec<ImageInfo> = Vec::new();
        proof {
            assert(all.take(all.len() as int) =~= all);
            assert(images_view(rest@) =~= all);
            assert(all.skip(all.len() as int) =~= Seq::<ImageInfoView>::empty());
            assert(images_view(images@) =~= Seq::<ImageInfoView>::empty());
        }
        while rest.len() > 0
            invariant
                rest.len() <= all.len(),
                images.len() + rest.len() == all.len(),
                images_view(rest@) == all.take(rest.len() as int),
                newest_first(images_view(images@)),
                forall|time: Seq<char>| #[trigger]
                    made_at(images_view(images@), time) == made_at(
                        all.skip(rest.len() as int),
                        time,
                    ),
            decreases rest.len(),
        {
            let ghost n = rest.len() as int;
            let ghost before = images_view(images@);
            assert(images_view(rest@)[n - 1] == rest@[n - 1]@);
            let x = rest.pop().unwrap();
            assert(x@ == all[n - 1]);
            assert(images_view(rest@) =~= all.take(n - 1));
            let mut p: usize = 0;
            while p < images.len() && made_before(&x, &images[p])
                invariant
                    p <= images.len(),
                    forall|j: int|
                        0 <= j < p ==> lex_less(
                            x.created_time@,
                            (#[trigger] images_view(images@)[j]).created_time,
                        ),
                decreases images.len() - p,
            {
                p = p + 1;
            }
            proof {
                if p < images.len() {
                    assert(images_view(images@)[p as int] == images@[p as int]@);
                }
                lemma_insert_in_order(before, p as int, x@);
            }
            images.insert(p, x);
            proof {
                assert(images_view(images@) =~= before.insert(p as int, x@));
                assert(all.skip(n - 1) =~= seq![all[n - 1]] + all.skip(n));
                assert forall|time: Seq<char>| #[trigger]
                    made_at(images_view(images@), time) == made_at(all.skip(n - 1), time) by {
                    Seq::filter_distributes_over_add(
                        seq![all[n - 1]],
                        all.skip(n),
                        made_at_time(time),
                    );
                    assert(made_at(before, time) == made_at(all.skip(n), time));
                }
            }
        }
        assert(all.skip(0) =~= all);
        images
    }

    /// What deleting the image `name:tag` takes, given whether its
    /// directory is there.
    pub fn delete(name: &str, tag: &str, present: bool) -> (plan: Result<DeletePlan, RuntimeError>)
        ensures
            present ==> plan is Ok && plan->Ok_0.image_dir@ == image_dir_of(name@, tag@)
                && plan->Ok_0.name_dir@ == name_dir_of(name@),
            !present ==> plan is Err && plan->Err_0@ == image_not_found(name@, tag@),
    {
        if present {
            Ok(
                DeletePlan {
                    image_dir: ImageStore::image_dir(name, tag),
                    name_dir: join("/var/lib/rocker/images", name),
                },
            )
        } else {
            Err(
                RuntimeError::MetadataNotFound {
                    name: String::from_str(name).concat(":").concat(tag),
                },
            )
        }
    }

    /// A size in bytes as a person reads it.
    pub fn format_size(size: u64) -> (text: String)
        ensures
            text@ == size_text(size as nat),
    {
        if size >= GB {
            scaled(size, GB, "GB")
        } else if size >= MB {
            scaled(size, MB, "MB")
        } else if size >= KB {
            scaled(size, KB, "KB")
        } else {
            decimal_string(size).concat("B")
        }
    }
}

} // verus!
