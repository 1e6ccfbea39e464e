//! The lower layers of a snapshot: which are kept where they are, which are
//! taken over, and when several are compacted into one.
use vstd::prelude::*;

use crate::failure::Failure;
use crate::overlaybd_config;
use crate::overlaybd_config::LayerConfig;
use crate::paths;
use crate::text;

verus! {

/// The number of layers above which those owned by the runtime are compacted.
pub const DEFAULT_MAX_OVERLAYBD_SNAPSHOT_LAYERS: usize = 32;

pub const INHERITED_LAYERS_DIR: &'static str = "inherited-layers";

pub const MANAGED_BASE_LAYER_FILE: &'static str = "managed-base.commit";

/// The file name of an adopted layer whose path names none.
pub const UNNAMED_LAYER_FILE: &'static str = "runtime-layer.commit";

/// The file name of the compacted layers of a memory image.
pub const MEM_COMPACTED_FILE: &'static str = "mem_compacted.commit";

/// What a sealed layer is, as the daemon describes it.
#[derive(Debug, PartialEq, Eq)]
pub struct LayerDescriptor {
    pub digest: String,
    pub size: u64,
}

impl Clone for LayerDescriptor {
    fn clone(&self) -> (r: LayerDescriptor)
        ensures
            r == *self,
    {
        LayerDescriptor { digest: self.digest.clone(), size: self.size }
    }
}

/// A layer in a local file.
pub open spec fn local_layer(path: Seq<char>) -> overlaybd_config::LayerModel {
    overlaybd_config::LayerModel { file: path, ..overlaybd_config::empty_layer() }
}

/// A layer in a local file, with the digest and size of its description.
pub open spec fn described_layer(
    path: Seq<char>,
    descriptor: Option<LayerDescriptor>,
) -> overlaybd_config::LayerModel {
    match descriptor {
        Some(d) => overlaybd_config::LayerModel {
            digest: d.digest@,
            size: d.size,
            ..local_layer(path)
        },
        None => local_layer(path),
    }
}

pub fn local_layer_config(path: &str) -> (r: LayerConfig)
    ensures
        r@ == local_layer(path@),
{
    local_layer_config_with_descriptor(path, None)
}

pub fn local_layer_config_with_descriptor(path: &str, descriptor: Option<&LayerDescriptor>) -> (r:
    LayerConfig)
    ensures
        r@ == described_layer(
            path@,
            match descriptor {
                Some(d) => Some(*d),
                None => None,
            },
        ),
{
    let mut layer = LayerConfig::default();
    layer.file = path.to_owned();
    match descriptor {
        Some(d) => {
            layer.digest = d.digest.clone();
            layer.size = d.size;
        },
        None => {},
    }
    layer
}

/// The resolved path of a layer's file: the one that the file system gave, or
/// else the path as it is written.
pub open spec fn layer_path(
    ls: Seq<overlaybd_config::LayerModel>,
    canonical: Seq<Option<String>>,
    i: int,
) -> Seq<char> {
    if i < canonical.len() && canonical[i] is Some {
        canonical[i]->0@
    } else {
        ls[i].file
    }
}

/// The path lies under one of the roots.
pub open spec fn under_any(path: Seq<char>, roots: Seq<Seq<char>>) -> bool {
    exists|k: int| 0 <= k < roots.len() && paths::lies_under(path, #[trigger] roots[k])
}

/// The first layer from `from` on that the runtime owns, or the number of
/// layers where there is none.
pub open spec fn first_owned(
    ls: Seq<overlaybd_config::LayerModel>,
    canonical: Seq<Option<String>>,
    roots: Seq<Seq<char>>,
    from: int,
) -> int
    decreases ls.len() - from,
{
    if from >= ls.len() || under_any(layer_path(ls, canonical, from), roots) {
        from
    } else {
        first_owned(ls, canonical, roots, from + 1)
    }
}

/// The number of layers before the first that the runtime owns.
pub open spec fn stable_len(
    ls: Seq<overlaybd_config::LayerModel>,
    canonical: Seq<Option<String>>,
    roots: Seq<Seq<char>>,
) -> int {
    first_owned(ls, canonical, roots, 0)
}

proof fn lemma_first_owned(
    ls: Seq<overlaybd_config::LayerModel>,
    canonical: Seq<Option<String>>,
    roots: Seq<Seq<char>>,
    from: int,
)
    requires
        0 <= from <= ls.len(),
    ensures
        ({
            let n = first_owned(ls, canonical, roots, from);
            &&& from <= n <= ls.len()
            &&& forall|i: int|
                from <= i < n ==> !under_any(#[trigger] layer_path(ls, canonical, i), roots)
            &&& n < ls.len() ==> under_any(layer_path(ls, canonical, n), roots)
        }),
    decreases ls.len() - from,
{
    if from < ls.len() && !under_any(layer_path(ls, canonical, from), roots) {
        lemma_first_owned(ls, canonical, roots, from + 1);
    }
}

/// No layer before the split belongs to the runtime, and the first after it
/// does.
pub proof fn split_is_before_the_first_owned_layer(
    ls: Seq<overlaybd_config::LayerModel>,
    canonical: Seq<Option<String>>,
    roots: Seq<Seq<char>>,
)
    ensures
        0 <= stable_len(ls, canonical, roots) <= ls.len(),
        forall|i: int|
            0 <= i < stable_len(ls, canonical, roots) ==> !under_any(
                #[trigger] layer_path(ls, canonical, i),
                roots,
            ),
        stable_len(ls, canonical, roots) < ls.len() ==> under_any(
            layer_path(ls, canonical, stable_len(ls, canonical, roots)),
            roots,
        ),
{
    lemma_first_owned(ls, canonical, roots, 0);
}

fn lies_under_any(path: &str, roots: &Vec<String>) -> (r: bool)
    ensures
        r == under_any(path@, text::views(roots@)),
{
    let ghost all = text::views(roots@);
    let mut k: usize = 0;
    while k < roots.len()
        invariant
            k <= roots.len(),
            all == text::views(roots@),
            forall|j: int| 0 <= j < k ==> !paths::lies_under(path@, #[trigger] all[j]),
        decreases roots.len() - k,
    {
        if paths::starts_with(path, roots[k].as_str()) {
            assert(paths::lies_under(path@, all[k as int]));
            return true;
        }
        assert(all[k as int] == roots@[k as int]@);
        k += 1;
    }
    false
}

/// Splits the lower layers of an image before the first layer that the runtime
/// owns. `canonical` holds the resolved path of each layer's file where the
/// file system could resolve it.
pub fn split_runtime_suffix(
    lowers: Vec<LayerConfig>,
    canonical: &Vec<Option<String>>,
    runtime_owned_roots: &Vec<String>,
) -> (r: (Vec<LayerConfig>, Vec<LayerConfig>))
    ensures
        ({
            let n = stable_len(
                overlaybd_config::layers(lowers@),
                canonical@,
                text::views(runtime_owned_roots@),
            );
            0 <= n <= lowers@.len() && r.0@ == lowers@.take(n) && r.1@ == lowers@.skip(n)
        }),
{
    let mut stable = lowers;
    let ghost ls = overlaybd_config::layers(stable@);
    let ghost roots = text::views(runtime_owned_roots@);
    let mut n: usize = 0;
    while n < stable.len()
        invariant
            n <= stable.len(),
            stable@ == lowers@,
            ls == overlaybd_config::layers(stable@),
            roots == text::views(runtime_owned_roots@),
            first_owned(ls, canonical@, roots, n as int) == stable_len(ls, canonical@, roots),
        decreases stable.len() - n,
    {
        let owned = if n < canonical.len() {
            match &canonical[n] {
                Some(path) => lies_under_any(path.as_str(), runtime_owned_roots),
                None => lies_under_any(stable[n].file.as_str(), runtime_owned_roots),
            }
        } else {
            lies_under_any(stable[n].file.as_str(), runtime_owned_roots)
        };
        assert(owned == under_any(layer_path(ls, canonical@, n as int), roots));
        if owned {
            let suffix = stable.split_off(n);
            assert(stable@ =~= lowers@.take(n as int));
            assert(suffix@ =~= lowers@.skip(n as int));
            return (stable, suffix);
        }
        n += 1;
    }
    let none: Vec<LayerConfig> = Vec::new();
    assert(stable@ =~= lowers@.take(n as int));
    assert(none@ =~= lowers@.skip(n as int));
    (stable, none)
}

/// Where the adopted layer number `index` is put.
pub open spec fn adopted_path(output_dir: Seq<char>, index: nat, file: Seq<char>) -> Seq<char> {
    paths::join_of(
        paths::join_of(
            paths::join_of(output_dir, INHERITED_LAYERS_DIR@),
            text::zero_padded(text::decimal(index), 4),
        ),
        match paths::last_name(file) {
            Some(name) => name,
            None => UNNAMED_LAYER_FILE@,
        },
    )
}

/// An adopted layer: the same layer, in its new file.
pub open spec fn adopted_layer(
    output_dir: Seq<char>,
    index: nat,
    l: overlaybd_config::LayerModel,
) -> overlaybd_config::LayerModel {
    overlaybd_config::LayerModel { file: adopted_path(output_dir, index, l.file), ..l }
}

pub open spec fn adopted_layers(
    output_dir: Seq<char>,
    suffix: Seq<overlaybd_config::LayerModel>,
) -> Seq<overlaybd_config::LayerModel> {
    Seq::new(suffix.len(), |i: int| adopted_layer(output_dir, i as nat, suffix[i]))
}

fn adopted_file(output_dir: &str, index: usize, file: &str) -> (r: String)
    ensures
        r@ == adopted_path(output_dir@, index as nat, file@),
{
    let dir = paths::join(output_dir, INHERITED_LAYERS_DIR);
    let number = text::zero_pad(text::decimal_of(index as u64).as_str(), 4);
    let numbered = paths::join(dir.as_str(), number.as_str());
    match paths::file_name(file) {
        Some(name) => paths::join(numbered.as_str(), name.as_str()),
        None => paths::join(numbered.as_str(), UNNAMED_LAYER_FILE),
    }
}

/// How the layers that are compacted are written: as they are, or compressed in
/// a way that is only handed on, as text.
#[derive(Debug, PartialEq, Eq)]
pub enum OverlaybdCompactOutput {
    Raw,
    Compressed(String),
}

/// A file that is to appear at a second place.
#[derive(Debug, PartialEq, Eq)]
pub struct LayerLink {
    pub source: String,
    pub destination: String,
}

/// What is to be done to the lower layers of an image.
#[derive(Debug, PartialEq, Eq)]
pub enum LowersPlan {
    /// Compact `suffix` into the file `output`, then append that to `kept`.
    Compact {
        kept: Vec<LayerConfig>,
        suffix: Vec<LayerConfig>,
        output: String,
        mode: OverlaybdCompactOutput,
    },
    /// Make the links, then use `lowers`.
    Adopt { links: Vec<LayerLink>, lowers: Vec<LayerConfig> },
}

/// The layers that may be compacted: those owned by the runtime, and the new
/// one.
pub open spec fn compactable(
    suffix: Seq<overlaybd_config::LayerModel>,
    appended: Option<overlaybd_config::LayerModel>,
) -> Seq<overlaybd_config::LayerModel> {
    match appended {
        Some(l) => suffix.push(l),
        None => suffix,
    }
}

/// There are so many layers that those that may be compacted are.
pub open spec fn too_many(
    kept: Seq<overlaybd_config::LayerModel>,
    suffix: Seq<overlaybd_config::LayerModel>,
    appended: Option<overlaybd_config::LayerModel>,
) -> bool {
    compactable(suffix, appended).len() > 1 && kept.len() + compactable(suffix, appended).len()
        > DEFAULT_MAX_OVERLAYBD_SNAPSHOT_LAYERS
}

/// One of the layers is not in a local file.
pub open spec fn any_remote(ls: Seq<overlaybd_config::LayerModel>) -> bool {
    exists|i: int| 0 <= i < ls.len() && (#[trigger] ls[i]).file.len() == 0
}

pub open spec fn layer_model(l: Option<LayerConfig>) -> Option<overlaybd_config::LayerModel> {
    match l {
        Some(l) => Some(l@),
        None => None,
    }
}

fn has_remote(v: &Vec<LayerConfig>) -> (r: bool)
    ensures
        r == any_remote(overlaybd_config::layers(v@)),
{
    let ghost ls = overlaybd_config::layers(v@);
    let mut i: usize = 0;
    while i < v.len()
        invariant
            i <= v.len(),
            ls == overlaybd_config::layers(v@),
            forall|k: int| 0 <= k < i ==> (#[trigger] ls[k]).file.len() > 0,
        decreases v.len() - i,
    {
        assert(ls[i as int] == v@[i as int]@);
        if v[i].file.as_str().is_empty() {
            return true;
        }
        i += 1;
    }
    false
}

/// `plan` is what is to become of an image with the layers `kept`, `suffix` and
/// `appended`.
pub open spec fn planned(
    plan: Result<LowersPlan, Failure>,
    kept: Seq<overlaybd_config::LayerModel>,
    suffix: Seq<overlaybd_config::LayerModel>,
    appended: Option<overlaybd_config::LayerModel>,
    output_dir: Seq<char>,
    output_name: Seq<char>,
    mode: OverlaybdCompactOutput,
) -> bool {
    if !too_many(kept, suffix, appended) {
        &&& plan matches Ok(LowersPlan::Adopt { links, lowers })
        &&& overlaybd_config::layers(lowers@) == compactable(
            kept + adopted_layers(output_dir, suffix),
            appended,
        )
        &&& links@.len() == suffix.len()
        &&& forall|i: int|
            0 <= i < suffix.len() ==> (#[trigger] links@[i]).source@ == suffix[i].file
                && links@[i].destination@ == adopted_path(output_dir, i as nat, suffix[i].file)
    } else if any_remote(compactable(suffix, appended)) {
        &&& plan matches Err(e)
        &&& e.message@ == "cannot compact runtime-owned overlaybd suffix with remote lowers"@
    } else {
        &&& plan matches Ok(LowersPlan::Compact { kept: k, suffix: s, output, mode: m })
        &&& m == mode
        &&& overlaybd_config::layers(k@) == kept
        &&& overlaybd_config::layers(s@) == compactable(suffix, appended)
        &&& output@ == paths::join_of(output_dir, output_name)
    }
}

/// Plans what is to become of the lower layers of an image in the snapshot at
/// `output_dir`: layers owned by the runtime are adopted there, or compacted
/// together with the new layer where there are too many layers in all.
pub fn plan_lowers(
    existing_lowers: Vec<LayerConfig>,
    canonical: &Vec<Option<String>>,
    runtime_owned_roots: &Vec<String>,
    output_dir: &str,
    appended_layer: Option<LayerConfig>,
    compaction_output_name: &str,
    compaction_output: OverlaybdCompactOutput,
) -> (r: Result<LowersPlan, Failure>)
    ensures
        ({
            let all = overlaybd_config::layers(existing_lowers@);
            let n = stable_len(all, canonical@, text::views(runtime_owned_roots@));
            planned(
                r,
                all.take(n),
                all.skip(n),
                layer_model(appended_layer),
                output_dir@,
                compaction_output_name@,
                compaction_output,
            )
        }),
{
    let ghost all = overlaybd_config::layers(existing_lowers@);
    let ghost appended = layer_model(appended_layer);
    let (kept_layers, suffix_layers) = split_runtime_suffix(
        existing_lowers,
        canonical,
        runtime_owned_roots,
    );
    let ghost n = kept_layers@.len() as int;
    let ghost kept = all.take(n);
    let ghost suffix = all.skip(n);
    assert(overlaybd_config::layers(kept_layers@) =~= kept);
    assert(overlaybd_config::layers(suffix_layers@) =~= suffix);
    assert(n == stable_len(all, canonical@, text::views(runtime_owned_roots@)));
    let compactable_count: u128 = match &appended_layer {
        Some(_) => suffix_layers.len() as u128 + 1,
        None => suffix_layers.len() as u128,
    };
    assert(compactable_count == compactable(suffix, appended).len());
    if compactable_count > 1 && kept_layers.len() as u128 + compactable_count
        > DEFAULT_MAX_OVERLAYBD_SNAPSHOT_LAYERS as u128 {
        let mut runtime_suffix = suffix_layers;
        match appended_layer {
            Some(layer) => {
                runtime_suffix.push(layer);
            },
            None => {},
        }
        assert(overlaybd_config::layers(runtime_suffix@) =~= compactable(suffix, appended));
        if has_remote(&runtime_suffix) {
            return Err(
                Failure::because(
                    "cannot compact runtime-owned overlaybd suffix with remote lowers",
                ),
            );
        }
        let output = paths::join(output_dir, compaction_output_name);
        return Ok(
            LowersPlan::Compact {
                kept: kept_layers,
                suffix: runtime_suffix,
                output,
                mode: compaction_output,
            },
        );
    }
    let mut lowers = kept_layers;
    let mut links: Vec<LayerLink> = Vec::new();
    let ghost adopted = adopted_layers(output_dir@, suffix);
    let mut index: usize = 0;
    assert(overlaybd_config::layers(lowers@) =~= kept + adopted.take(0));
    while index < suffix_layers.len()
        invariant
            index <= suffix_layers.len(),
            suffix == overlaybd_config::layers(suffix_layers@),
            adopted == adopted_layers(output_dir@, suffix),
            overlaybd_config::layers(lowers@) == kept + adopted.take(index as int),
            links@.len() == index,
            forall|i: int|
                0 <= i < index ==> (#[trigger] links@[i]).source@ == suffix[i].file
                    && links@[i].destination@ == adopted_path(
                    output_dir@,
                    i as nat,
                    suffix[i].file,
                ),
        decreases suffix_layers.len() - index,
    {
        let mut layer = suffix_layers[index].clone();
        assert(layer@ == suffix[index as int]);
        let destination = adopted_file(output_dir, index, layer.file.as_str());
        links.push(
            LayerLink { source: layer.file.clone(), destination: destination.clone() },
        );
        layer.file = destination;
        let ghost before = lowers@;
        assert(layer@ == adopted[index as int]);
        lowers.push(layer);
        assert(overlaybd_config::layers(lowers@) =~= overlaybd_config::layers(before).push(layer@));
        index += 1;
        assert(overlaybd_config::layers(lowers@) =~= kept + adopted.take(index as int));
    }
    assert(adopted.take(adopted.len() as int) =~= adopted);
    let ghost before = lowers@;
    match appended_layer {
        Some(layer) => {
            lowers.push(layer);
            assert(overlaybd_config::layers(lowers@) =~= overlaybd_config::layers(before).push(
                layer@,
            ));
        },
        None => {},
    }
    assert(overlaybd_config::layers(lowers@) =~= compactable(kept + adopted, appended));
    Ok(LowersPlan::Adopt { links, lowers })
}

/// The layers after compaction into the file at `path`; compaction may leave
/// nothing to append.
pub open spec fn compacted_layers(
    kept: Seq<overlaybd_config::LayerModel>,
    path: Option<Seq<char>>,
) -> Seq<overlaybd_config::LayerModel> {
    match path {
        Some(p) => kept.push(local_layer(p)),
        None => kept,
    }
}

/// The layers after compaction.
pub fn finish_compaction(kept: Vec<LayerConfig>, compacted_path: Option<&str>) -> (r: Vec<
    LayerConfig,
>)
    ensures
        overlaybd_config::layers(r@) == compacted_layers(
            overlaybd_config::layers(kept@),
            text::str_of(compacted_path),
        ),
{
    let mut lowers = kept;
    match compacted_path {
        Some(path) => {
            let ghost before = lowers@;
            lowers.push(local_layer_config(path));
            assert(overlaybd_config::layers(lowers@) =~= overlaybd_config::layers(before).push(
                local_layer(path@),
            ));
        },
        None => {},
    }
    lowers
}

/// Adopting changes neither the number nor the order of the layers, and of a
/// layer nothing but its file.
pub proof fn adopting_keeps_the_layers_in_order(
    all: Seq<overlaybd_config::LayerModel>,
    n: int,
    appended: Option<overlaybd_config::LayerModel>,
    output_dir: Seq<char>,
)
    requires
        0 <= n <= all.len(),
    ensures
        ({
            let before = compactable(all, appended);
            let after = compactable(
                all.take(n) + adopted_layers(output_dir, all.skip(n)),
                appended,
            );
            &&& after.len() == before.len()
            &&& forall|i: int|
                0 <= i < before.len() ==> (#[trigger] after[i]) == (overlaybd_config::LayerModel {
                    file: after[i].file,
                    ..before[i]
                })
            &&& forall|i: int|
                (0 <= i < n || i == all.len() < before.len()) ==> (#[trigger] after[i]) == before[i]
        }),
{
}

/// A single layer is never compacted.
pub proof fn compaction_needs_two_layers(
    kept: Seq<overlaybd_config::LayerModel>,
    suffix: Seq<overlaybd_config::LayerModel>,
    appended: Option<overlaybd_config::LayerModel>,
)
    requires
        too_many(kept, suffix, appended),
    ensures
        compactable(suffix, appended).len() >= 2,
        suffix.len() >= 1,
{
}

/// Layers do not pile up: whether the runtime's layers are adopted or compacted,
/// a snapshot has no more than 32 layers, or no more than one besides the stable
/// ones.
pub proof fn layers_do_not_pile_up(
    kept: Seq<overlaybd_config::LayerModel>,
    suffix: Seq<overlaybd_config::LayerModel>,
    appended: Option<overlaybd_config::LayerModel>,
    output_dir: Seq<char>,
    compacted_path: Option<Seq<char>>,
)
    ensures
        ({
            let after = if too_many(kept, suffix, appended) {
                compacted_layers(kept, compacted_path)
            } else {
                compactable(kept + adopted_layers(output_dir, suffix), appended)
            };
            after.len() <= DEFAULT_MAX_OVERLAYBD_SNAPSHOT_LAYERS || after.len() <= kept.len() + 1
        }),
{
}

/// The new layer stays on top, unchanged, above all layers that were there.
pub proof fn appended_layer_stays_on_top(
    kept: Seq<overlaybd_config::LayerModel>,
    suffix: Seq<overlaybd_config::LayerModel>,
    top: overlaybd_config::LayerModel,
    output_dir: Seq<char>,
)
    ensures
        ({
            let after = compactable(kept + adopted_layers(output_dir, suffix), Some(top));
            after.len() == kept.len() + suffix.len() + 1 && after.last() == top
        }),
{
}

/// Adopted layers do not get in each other's way: different layers are put at
/// different places.
pub proof fn adopted_layers_have_places_of_their_own(
    output_dir: Seq<char>,
    i: nat,
    j: nat,
    file_i: Seq<char>,
    file_j: Seq<char>,
)
    requires
        adopted_path(output_dir, i, file_i) == adopted_path(output_dir, j, file_j),
    ensures
        i == j,
{
    let dir = paths::join_of(output_dir, INHERITED_LAYERS_DIR@);
    let a = text::zero_padded(text::decimal(i), 4);
    let b = text::zero_padded(text::decimal(j), 4);
    let name_i = match paths::last_name(file_i) {
        Some(name) => name,
        None => UNNAMED_LAYER_FILE@,
    };
    let name_j = match paths::last_name(file_j) {
        Some(name) => name,
        None => UNNAMED_LAYER_FILE@,
    };
    reveal_strlit("inherited-layers");
    reveal_strlit("runtime-layer.commit");
    paths::lemma_last_name(file_i);
    paths::lemma_last_name(file_j);
    lemma_padded(i);
    lemma_padded(j);
    let p = dir + seq!['/'] + a;
    let q = dir + seq!['/'] + b;
    assert(dir.len() > 0 && dir.last() == 's');
    assert(paths::join_of(dir, a) == p);
    assert(paths::join_of(dir, b) == q);
    assert(adopted_path(output_dir, i, file_i) =~= p + seq!['/'] + name_i);
    assert(adopted_path(output_dir, j, file_j) =~= q + seq!['/'] + name_j);
    paths::lemma_last_slash(p, name_i, q, name_j);
    assert(a =~= p.skip(dir.len() as int + 1));
    assert(b =~= q.skip(dir.len() as int + 1));
    text::padding_keeps_the_number(i, 4);
    text::padding_keeps_the_number(j, 4);
}

proof fn lemma_padded(n: nat)
    ensures
        ({
            let s = text::zero_padded(text::decimal(n), 4);
            s.len() > 0 && s[0] != '/' && s.last() != '/'
        }),
{
    text::decimal_stands_for_its_number(n);
    let d = text::decimal(n);
    assert('0' <= d[0] && d[0] <= '9');
    assert('0' <= d[d.len() - 1] && d[d.len() - 1] <= '9');
}

} // verus!
