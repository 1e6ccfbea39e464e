//! What staging the lower layers of a snapshot is for: no layer is lost, none changes
//! its place, and only layers of the runtime are moved or compacted.
use vstd::prelude::*;

use crate::failure::Failure;
use crate::overlaybd_config;
use crate::overlaybd_config::LayerConfig;
use crate::paths;
use crate::snapshot_capture;
use crate::snapshot_layers;
use crate::snapshot_layers::LayerDescriptor;
use crate::snapshot_layers::LowersPlan;
use crate::snapshot_layers::OverlaybdCompactOutput;
use crate::text;

verus! {

/// The runtime owns the layer number `i`: its file, as the file system resolved it or
/// else as it is written, is one of the roots or lies below one.
pub open spec fn owned(
    all: Seq<overlaybd_config::LayerModel>,
    canonical: Seq<Option<String>>,
    roots: Seq<Seq<char>>,
    i: int,
) -> bool {
    exists|k: int|
        #![trigger roots[k]]
        0 <= k < roots.len() && paths::components(roots[k]).is_prefix_of(
            paths::components(
                if i < canonical.len() && canonical[i] is Some {
                    canonical[i]->0@
                } else {
                    all[i].file
                },
            ),
        )
}

/// The layers before the split are the longest run from the bottom of which the
/// runtime owns none.
pub proof fn layers_are_split_before_the_first_of_the_runtime(
    all: Seq<overlaybd_config::LayerModel>,
    canonical: Seq<Option<String>>,
    roots: Seq<Seq<char>>,
)
    ensures
        ({
            let n = snapshot_layers::stable_len(all, canonical, roots);
            &&& 0 <= n <= all.len()
            &&& forall|i: int| 0 <= i < n ==> !#[trigger] owned(all, canonical, roots, i)
            &&& n < all.len() ==> owned(all, canonical, roots, n)
        }),
{
    snapshot_layers::split_is_before_the_first_owned_layer(all, canonical, roots);
    let n = snapshot_layers::stable_len(all, canonical, roots);
    assert forall|i: int| 0 <= i < n implies !#[trigger] owned(all, canonical, roots, i) by {
        let path = snapshot_layers::layer_path(all, canonical, i);
        assert(!snapshot_layers::under_any(path, roots));
        assert forall|k: int| 0 <= k < roots.len() implies !paths::components(
            #[trigger] roots[k],
        ).is_prefix_of(paths::components(path)) by {
            assert(!paths::lies_under(path, roots[k]));
        }
    }
    if n < all.len() {
        let path = snapshot_layers::layer_path(all, canonical, n);
        let k = choose|k: int| 0 <= k < roots.len() && paths::lies_under(path, #[trigger] roots[k]);
        assert(paths::components(roots[k]).is_prefix_of(paths::components(path)));
    }
}

/// All layers of an image and the new one, from the bottom to the top.
pub open spec fn stack(
    all: Seq<overlaybd_config::LayerModel>,
    appended: Option<overlaybd_config::LayerModel>,
) -> Seq<overlaybd_config::LayerModel> {
    all + (match appended {
        Some(top) => seq![top],
        None => seq![],
    })
}

/// The layers that are kept and those that are compacted are together exactly the
/// layers of the image and the new one, in their old order. They are compacted only
/// where there are more than 32 in all and at least two above the split, and each of
/// these is in a local file.
pub proof fn compaction_takes_the_layers_in_their_order(
    all: Seq<overlaybd_config::LayerModel>,
    n: int,
    appended: Option<overlaybd_config::LayerModel>,
    output_dir: Seq<char>,
    output_name: Seq<char>,
    mode: OverlaybdCompactOutput,
    kept: Vec<LayerConfig>,
    suffix: Vec<LayerConfig>,
    output: String,
    m: OverlaybdCompactOutput,
)
    requires
        0 <= n <= all.len(),
        snapshot_layers::planned(
            Ok::<LowersPlan, Failure>(LowersPlan::Compact { kept, suffix, output, mode: m }),
            all.take(n),
            all.skip(n),
            appended,
            output_dir,
            output_name,
            mode,
        ),
    ensures
        kept@.len() == n,
        kept@.len() + suffix@.len() == stack(all, appended).len(),
        forall|i: int| 0 <= i < n ==> (#[trigger] kept@[i])@ == stack(all, appended)[i],
        forall|i: int|
            0 <= i < suffix@.len() ==> (#[trigger] suffix@[i])@ == stack(all, appended)[n + i],
        forall|i: int| 0 <= i < suffix@.len() ==> (#[trigger] suffix@[i])@.file.len() > 0,
        stack(all, appended).len() > 32,
        suffix@.len() >= 2,
        output@ == paths::join_of(output_dir, output_name),
        m == mode,
{
    let whole = stack(all, appended);
    let k = overlaybd_config::layers(kept@);
    let s = overlaybd_config::layers(suffix@);
    assert(k.len() == kept@.len());
    assert(s.len() == suffix@.len());
    assert forall|i: int| 0 <= i < n implies (#[trigger] kept@[i])@ == whole[i] by {
        assert(k[i] == kept@[i]@);
        assert(k[i] == all.take(n)[i]);
    }
    assert forall|i: int| 0 <= i < suffix@.len() implies (#[trigger] suffix@[i])@ == whole[n + i]
        && suffix@[i]@.file.len() > 0 by {
        assert(s[i] == suffix@[i]@);
        assert(s[i] == snapshot_layers::compactable(all.skip(n), appended)[i]);
        if i < all.len() - n {
            assert(s[i] == all.skip(n)[i]);
        }
    }
}

/// Where layers are adopted, the layers of the snapshot are those of the image and the
/// new one, in their old order: those below the split and the new one unchanged, the
/// others in files of their own, and otherwise unchanged. Each moved file is linked
/// from where it was to where the layer now says it is.
pub proof fn adoption_moves_the_files_of_the_runtime_only(
    all: Seq<overlaybd_config::LayerModel>,
    n: int,
    appended: Option<overlaybd_config::LayerModel>,
    output_dir: Seq<char>,
    output_name: Seq<char>,
    mode: OverlaybdCompactOutput,
    plan: LowersPlan,
)
    requires
        0 <= n <= all.len(),
        plan is Adopt,
        snapshot_layers::planned(
            Ok::<LowersPlan, Failure>(plan),
            all.take(n),
            all.skip(n),
            appended,
            output_dir,
            output_name,
            mode,
        ),
    ensures
        ({
            let lowers = plan->Adopt_lowers@;
            let links = plan->Adopt_links@;
            let whole = stack(all, appended);
            &&& whole.len() <= 32 || whole.len() <= n + 1
            &&& lowers.len() == whole.len()
            &&& links.len() == all.len() - n
            &&& forall|i: int|
                0 <= i < whole.len() && (i < n || i >= all.len()) ==> (#[trigger] lowers[i])@
                    == whole[i]
            &&& forall|i: int|
                n <= i < all.len() ==> {
                    let l = (#[trigger] lowers[i])@;
                    &&& l == (overlaybd_config::LayerModel { file: l.file, ..whole[i] })
                    &&& links[i - n].source@ == whole[i].file
                    &&& links[i - n].destination@ == l.file
                    &&& l.file == paths::join_of(
                        paths::join_of(
                            paths::join_of(output_dir, "inherited-layers"@),
                            text::zero_padded(text::decimal((i - n) as nat), 4),
                        ),
                        match paths::last_name(whole[i].file) {
                            Some(name) => name,
                            None => "runtime-layer.commit"@,
                        },
                    )
                }
            &&& forall|i: int, j: int|
                n <= i < j < all.len() ==> (#[trigger] lowers[i])@.file != (
                #[trigger] lowers[j])@.file
        }),
{
    let lowers = plan->Adopt_lowers@;
    let links = plan->Adopt_links@;
    let whole = stack(all, appended);
    let suffix = all.skip(n);
    let ls = overlaybd_config::layers(lowers);
    assert(ls.len() == lowers.len());
    assert forall|i: int| 0 <= i < whole.len() implies (#[trigger] lowers[i])@ == (if i < n || i
        >= all.len() {
        whole[i]
    } else {
        snapshot_layers::adopted_layer(output_dir, (i - n) as nat, whole[i])
    }) by {
        assert(ls[i] == lowers[i]@);
        if n <= i < all.len() {
            assert(suffix[i - n] == all[i]);
            assert(snapshot_layers::adopted_layers(output_dir, suffix)[i - n]
                == snapshot_layers::adopted_layer(output_dir, (i - n) as nat, suffix[i - n]));
        } else if i < n {
            assert(all.take(n)[i] == all[i]);
        }
    }
    assert forall|i: int| n <= i < all.len() implies {
        let l = (#[trigger] lowers[i])@;
        &&& links[i - n].source@ == whole[i].file
        &&& links[i - n].destination@ == l.file
    } by {
        assert(suffix[i - n] == all[i]);
        assert(links[i - n].source@ == suffix[i - n].file);
    }
    assert forall|i: int, j: int| n <= i < j < all.len() implies (#[trigger] lowers[i])@.file != (
    #[trigger] lowers[j])@.file by {
        if lowers[i]@.file == lowers[j]@.file {
            snapshot_layers::adopted_layers_have_places_of_their_own(
                output_dir,
                (i - n) as nat,
                (j - n) as nat,
                whole[i].file,
                whole[j].file,
            );
        }
    }
}

/// Staging is refused only where layers would have to be compacted of which one is
/// not in a local file.
pub proof fn refusals_are_about_remote_layers(
    all: Seq<overlaybd_config::LayerModel>,
    n: int,
    appended: Option<overlaybd_config::LayerModel>,
    output_dir: Seq<char>,
    output_name: Seq<char>,
    mode: OverlaybdCompactOutput,
    e: Failure,
)
    requires
        0 <= n <= all.len(),
        snapshot_layers::planned(
            Err::<LowersPlan, Failure>(e),
            all.take(n),
            all.skip(n),
            appended,
            output_dir,
            output_name,
            mode,
        ),
    ensures
        e.message@ == "cannot compact runtime-owned overlaybd suffix with remote lowers"@,
        stack(all, appended).len() > 32,
        stack(all, appended).len() >= n + 2,
        exists|i: int|
            n <= i < stack(all, appended).len() && (#[trigger] stack(
                all,
                appended,
            )[i]).file.len() == 0,
{
    let whole = stack(all, appended);
    let c = snapshot_layers::compactable(all.skip(n), appended);
    let i = choose|i: int| 0 <= i < c.len() && (#[trigger] c[i]).file.len() == 0;
    if i < all.len() - n {
        assert(c[i] == all.skip(n)[i]);
    }
    assert(whole[n + i] == c[i]);
}

/// Every plan is one of these: layers are adopted unless there are more than 32 in all
/// and at least two above the split, and otherwise compacted unless one of those above
/// the split is not in a local file.
pub proof fn too_many_layers_are_compacted(
    all: Seq<overlaybd_config::LayerModel>,
    n: int,
    appended: Option<overlaybd_config::LayerModel>,
    output_dir: Seq<char>,
    output_name: Seq<char>,
    mode: OverlaybdCompactOutput,
    plan: Result<LowersPlan, Failure>,
)
    requires
        0 <= n <= all.len(),
        snapshot_layers::planned(
            plan,
            all.take(n),
            all.skip(n),
            appended,
            output_dir,
            output_name,
            mode,
        ),
    ensures
        ({
            let whole = stack(all, appended);
            let crowded = whole.len() > 32 && whole.len() >= n + 2;
            let local = forall|i: int|
                n <= i < whole.len() ==> (#[trigger] whole[i]).file.len() > 0;
            &&& !crowded ==> plan is Ok && plan->Ok_0 is Adopt
            &&& crowded && local ==> plan is Ok && plan->Ok_0 is Compact
            &&& crowded && !local ==> plan is Err
        }),
{
    let whole = stack(all, appended);
    let c = snapshot_layers::compactable(all.skip(n), appended);
    assert(c.len() == whole.len() - n);
    assert forall|i: int| 0 <= i < c.len() implies #[trigger] c[i] == whole[n + i] by {
        if i < all.len() - n {
            assert(c[i] == all.skip(n)[i]);
        }
    }
    if snapshot_layers::any_remote(c) {
        let i = choose|i: int| 0 <= i < c.len() && (#[trigger] c[i]).file.len() == 0;
        assert(whole[n + i].file.len() == 0);
    } else {
        assert forall|i: int| n <= i < whole.len() implies (#[trigger] whole[i]).file.len() > 0 by {
            assert(c[i - n] == whole[i]);
        }
    }
}

/// After compaction the kept layers stay as they were, and the file that was written
/// comes on top of them, as a local layer that says nothing else.
pub proof fn the_compacted_layer_comes_on_top(
    kept: Seq<overlaybd_config::LayerModel>,
    path: Option<Seq<char>>,
)
    ensures
        ({
            let after = snapshot_layers::compacted_layers(kept, path);
            &&& path is None ==> after == kept
            &&& path matches Some(file) ==> {
                &&& after.len() == kept.len() + 1
                &&& forall|i: int| 0 <= i < kept.len() ==> #[trigger] after[i] == kept[i]
                &&& after.last().file == file
                &&& after.last().gzip_index.len() == 0
                &&& after.last().target_file.len() == 0
                &&& after.last().dir.len() == 0
                &&& after.last().repo_blob_url.len() == 0
                &&& after.last().digest.len() == 0
                &&& after.last().uuid.len() == 0
                &&& after.last().target_digest.len() == 0
                &&& after.last().size == 0
            }
        }),
{
}

/// A sealed layer is recorded by its file, with the digest and the size that the
/// daemon told, and says nothing else.
pub proof fn sealed_layers_are_recorded_as_described(
    path: Seq<char>,
    descriptor: Option<LayerDescriptor>,
)
    ensures
        ({
            let l = snapshot_layers::described_layer(path, descriptor);
            &&& l.file == path
            &&& descriptor matches Some(d) ==> l.digest == d.digest@ && l.size == d.size
            &&& descriptor is None ==> l.digest.len() == 0 && l.size == 0
            &&& l.gzip_index.len() == 0
            &&& l.target_file.len() == 0
            &&& l.dir.len() == 0
            &&& l.repo_blob_url.len() == 0
            &&& l.uuid.len() == 0
            &&& l.target_digest.len() == 0
        }),
{
}

/// Recording a layer puts it above all others and changes nothing else of the image;
/// taking it off is possible exactly where the topmost layer is the expected one, and
/// leaves all others where they were.
pub proof fn recording_puts_the_layer_above_all_others(
    c: overlaybd_config::ImageModel,
    l: overlaybd_config::LayerModel,
    expected: Seq<char>,
    actual: Seq<char>,
)
    ensures
        ({
            let after = snapshot_capture::with_layer(c, l);
            &&& after.lowers.len() == c.lowers.len() + 1
            &&& forall|i: int| 0 <= i < c.lowers.len() ==> #[trigger] after.lowers[i] == c.lowers[i]
            &&& after.lowers.last() == l
            &&& after == (overlaybd_config::ImageModel { lowers: after.lowers, ..c })
        }),
        snapshot_capture::latest_layer_fault(c, expected, actual) is None <==> c.lowers.len() > 0
            && paths::components(actual) == paths::components(expected),
        c.lowers.len() > 0 ==> {
            let rest = snapshot_capture::without_latest(c);
            &&& rest.lowers.len() == c.lowers.len() - 1
            &&& forall|i: int|
                0 <= i < rest.lowers.len() ==> #[trigger] rest.lowers[i] == c.lowers[i]
            &&& rest == (overlaybd_config::ImageModel { lowers: rest.lowers, ..c })
        },
{
}

/// What a snapshot keeps of an image: its layers, its repository, its download and
/// trace settings and its base template, and nothing to write to.
pub proof fn snapshots_keep_an_image_without_its_upper_layer(
    c: overlaybd_config::ImageModel,
    lowers: Seq<overlaybd_config::LayerModel>,
)
    ensures
        ({
            let s = snapshot_capture::staged(c, lowers);
            &&& s.lowers == lowers
            &&& s.upper.mode is None
            &&& s.upper.data.len() == 0
            &&& s.upper.index.len() == 0
            &&& s.upper.target.len() == 0
            &&& s.upper.gzip_index.len() == 0
            &&& s.result_file == "./result.txt"@
            &&& s.repo_blob_url == c.repo_blob_url
            &&& s.download_override == c.download_override
            &&& s.acceleration_layer == c.acceleration_layer
            &&& s.record_trace_path == c.record_trace_path
            &&& s.base_template == c.base_template
        }),
{
}

} // verus!
