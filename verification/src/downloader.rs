//! What the downloader fetches: the pretrained weights that are missing and
//! the sample models of a sample mode.
use vstd::prelude::*;
use crate::paths::{decimal, file_name_of, join_path, path_file_name, path_join, path_with_file_name, usize_to_string, with_file_name};
use crate::setting_value::key_is;
use crate::voice_changer_params::VoiceChangerParams;

verus! {

/// A file to fetch: its URL and where it is saved.
#[derive(Debug, PartialEq, Eq)]
pub struct DownloadTask {
    pub url: String,
    pub save_to: String,
}

impl Clone for DownloadTask {
    fn clone(&self) -> (r: Self)
        ensures
            r == *self,
    {
        DownloadTask { url: self.url.clone(), save_to: self.save_to.clone() }
    }
}

pub open spec fn task_is(t: DownloadTask, save_to: Seq<char>, url: Seq<char>) -> bool {
    t.save_to@ == save_to && t.url@ == url
}

fn task(save_to: &str, url: &str) -> (r: DownloadTask)
    ensures
        task_is(r, save_to@, url@),
{
    DownloadTask { url: String::from_str(url), save_to: String::from_str(save_to) }
}

/// The pretrained weights and where each comes from, in this order:
/// Hubert base, Japanese Hubert base, Hubert soft, NSF-HiFiGAN, CREPE full
/// and tiny (ONNX), ContentVec (ONNX), RMVPE and RMVPE (ONNX), Whisper tiny.
pub open spec fn weight_targets_match(t: Seq<DownloadTask>, p: VoiceChangerParams) -> bool {
    &&& t.len() == 10
    &&& task_is(t[0], p.hubert_base@, "https://huggingface.co/ddPn08/rvc-webui-models/resolve/main/embeddings/hubert_base.pt"@)
    &&& task_is(t[1], p.hubert_base_jp@, "https://huggingface.co/rinna/japanese-hubert-base/resolve/main/fairseq/model.pt"@)
    &&& task_is(t[2], p.hubert_soft@, "https://huggingface.co/wok000/weights/resolve/main/ddsp-svc30/embedder/hubert-soft-0d54a1f4.pt"@)
    &&& task_is(t[3], p.nsf_hifigan@, "https://huggingface.co/wok000/weights/resolve/main/ddsp-svc30/nsf_hifigan_20221211/model.bin"@)
    &&& task_is(t[4], p.crepe_onnx_full@, "https://huggingface.co/wok000/weights/resolve/main/crepe/onnx/full.onnx"@)
    &&& task_is(t[5], p.crepe_onnx_tiny@, "https://huggingface.co/wok000/weights/resolve/main/crepe/onnx/tiny.onnx"@)
    &&& task_is(t[6], p.content_vec_500_onnx@, "https://huggingface.co/wok000/weights_gpl/resolve/main/content-vec/contentvec-f.onnx"@)
    &&& task_is(t[7], p.rmvpe@, "https://huggingface.co/wok000/weights/resolve/main/rmvpe/rmvpe_20231006.pt"@)
    &&& task_is(t[8], p.rmvpe_onnx@, "https://huggingface.co/wok000/weights_gpl/resolve/main/rmvpe/rmvpe_20231006.onnx"@)
    &&& task_is(t[9], p.whisper_tiny@, "https://openaipublic.azureedge.net/main/whisper/models/65147644a518d12f04e32d6f3b26facc3f8dd46e5390956a9424a650c0ce22b9/tiny.pt"@)
}

/// The pretrained weights the server needs, each with its source URL.
pub fn weight_download_targets(params: &VoiceChangerParams) -> (r: Vec<DownloadTask>)
    ensures
        weight_targets_match(r@, *params),
{
    let mut v: Vec<DownloadTask> = Vec::new();
    v.push(task(params.hubert_base.as_str(), "https://huggingface.co/ddPn08/rvc-webui-models/resolve/main/embeddings/hubert_base.pt"));
    v.push(task(params.hubert_base_jp.as_str(), "https://huggingface.co/rinna/japanese-hubert-base/resolve/main/fairseq/model.pt"));
    v.push(task(params.hubert_soft.as_str(), "https://huggingface.co/wok000/weights/resolve/main/ddsp-svc30/embedder/hubert-soft-0d54a1f4.pt"));
    v.push(task(params.nsf_hifigan.as_str(), "https://huggingface.co/wok000/weights/resolve/main/ddsp-svc30/nsf_hifigan_20221211/model.bin"));
    v.push(task(params.crepe_onnx_full.as_str(), "https://huggingface.co/wok000/weights/resolve/main/crepe/onnx/full.onnx"));
    v.push(task(params.crepe_onnx_tiny.as_str(), "https://huggingface.co/wok000/weights/resolve/main/crepe/onnx/tiny.onnx"));
    v.push(task(params.content_vec_500_onnx.as_str(), "https://huggingface.co/wok000/weights_gpl/resolve/main/content-vec/contentvec-f.onnx"));
    v.push(task(params.rmvpe.as_str(), "https://huggingface.co/wok000/weights/resolve/main/rmvpe/rmvpe_20231006.pt"));
    v.push(task(params.rmvpe_onnx.as_str(), "https://huggingface.co/wok000/weights_gpl/resolve/main/rmvpe/rmvpe_20231006.onnx"));
    v.push(task(params.whisper_tiny.as_str(), "https://openaipublic.azureedge.net/main/whisper/models/65147644a518d12f04e32d6f3b26facc3f8dd46e5390956a9424a650c0ce22b9/tiny.pt"));
    v
}

/// The targets whose file does not exist yet, in their order.
pub open spec fn select_missing(t: Seq<DownloadTask>, exists: Seq<bool>) -> Seq<DownloadTask>
    decreases t.len(),
{
    if t.len() == 0 {
        seq![]
    } else {
        let rest = select_missing(t.drop_last(), exists.drop_last());
        if exists.last() { rest } else { rest.push(t.last()) }
    }
}

/// Only missing targets are fetched, in their order: with every file
/// present nothing is fetched, with none present everything is.
pub proof fn law_missing_selection(t: Seq<DownloadTask>, exists: Seq<bool>)
    requires
        exists.len() == t.len(),
    ensures
        (forall|i: int| 0 <= i < exists.len() ==> #[trigger] exists[i]) ==> select_missing(t, exists).len() == 0,
        (forall|i: int| 0 <= i < exists.len() ==> !#[trigger] exists[i]) ==> select_missing(t, exists) == t,
        select_missing(t, exists).len() <= t.len(),
    decreases t.len(),
{
    if t.len() > 0 {
        law_missing_selection(t.drop_last(), exists.drop_last());
        assert forall|i: int| 0 <= i < exists.drop_last().len() implies exists.drop_last()[i] == exists[i] by {}
        if forall|i: int| 0 <= i < exists.len() ==> !#[trigger] exists[i] {
            assert(!exists.last());
            assert(t.drop_last().push(t.last()) =~= t);
        }
    } else {
        assert(t =~= seq![]);
    }
}

/// Selection goes target by target: a single target is fetched exactly
/// when its file is missing, and the selection of two lists one after the
/// other is the selection of the first followed by that of the second.
pub proof fn law_missing_selection_piecewise(
    t1: Seq<DownloadTask>,
    e1: Seq<bool>,
    t2: Seq<DownloadTask>,
    e2: Seq<bool>,
    x: DownloadTask,
    b: bool,
)
    requires
        e1.len() == t1.len(),
        e2.len() == t2.len(),
    ensures
        select_missing(seq![x], seq![b]) == if b { Seq::<DownloadTask>::empty() } else { seq![x] },
        select_missing(t1 + t2, e1 + e2) == select_missing(t1, e1) + select_missing(t2, e2),
    decreases t2.len(),
{
    assert(seq![x].drop_last() =~= Seq::<DownloadTask>::empty());
    assert(seq![b].drop_last() =~= Seq::<bool>::empty());
    assert(select_missing(Seq::<DownloadTask>::empty(), Seq::<bool>::empty()) =~= Seq::<DownloadTask>::empty());
    if t2.len() == 0 {
        assert(t1 + t2 =~= t1);
        assert(e1 + e2 =~= e1);
        assert(select_missing(t2, e2) =~= Seq::<DownloadTask>::empty());
        assert(select_missing(t1, e1) + select_missing(t2, e2) =~= select_missing(t1, e1));
    } else {
        law_missing_selection_piecewise(t1, e1, t2.drop_last(), e2.drop_last(), x, b);
        assert((t1 + t2).drop_last() =~= t1 + t2.drop_last());
        assert((e1 + e2).drop_last() =~= e1 + e2.drop_last());
        assert((t1 + t2).last() == t2.last());
        assert((e1 + e2).last() == e2.last());
        if !e2.last() {
            assert(select_missing(t1, e1) + select_missing(t2.drop_last(), e2.drop_last()).push(t2.last())
                =~= (select_missing(t1, e1) + select_missing(t2.drop_last(), e2.drop_last())).push(t2.last()));
        }
    }
}

/// The targets to fetch, given whether each target's file exists.
pub fn missing_downloads(targets: &Vec<DownloadTask>, exists: &Vec<bool>) -> (r: Vec<DownloadTask>)
    requires
        exists@.len() == targets@.len(),
    ensures
        r@ == select_missing(targets@, exists@),
{
    let mut out: Vec<DownloadTask> = Vec::new();
    let mut i: usize = 0;
    while i < targets.len()
        invariant
            exists@.len() == targets@.len(),
            i <= targets@.len(),
            out@ == select_missing(targets@.subrange(0, i as int), exists@.subrange(0, i as int)),
        decreases targets@.len() - i,
    {
        assert(targets@.subrange(0, i + 1).drop_last() =~= targets@.subrange(0, i as int));
        assert(exists@.subrange(0, i + 1).drop_last() =~= exists@.subrange(0, i as int));
        if !exists[i] {
            out.push(targets[i].clone());
        }
        i = i + 1;
    }
    assert(targets@.subrange(0, targets@.len() as int) =~= targets@);
    assert(exists@.subrange(0, exists@.len() as int) =~= exists@);
    out
}

/// The configuration and ONNX files that sit beside the NSF-HiFiGAN
/// weights.
pub fn nsf_hifigan_extra_paths(nsf_hifigan: &str) -> (r: (String, String))
    ensures
        r.0@ == path_with_file_name(nsf_hifigan@, "config.json"@),
        r.1@ == path_with_file_name(nsf_hifigan@, "nsf_hifigan.onnx"@),
{
    (with_file_name(nsf_hifigan, "config.json"), with_file_name(nsf_hifigan, "nsf_hifigan.onnx"))
}

/// The extra NSF-HiFiGAN files to fetch: only when the weights themselves
/// are missing, the configuration and then the ONNX file, each unless it
/// exists.
pub fn nsf_hifigan_extra_downloads(
    nsf_hifigan: &str,
    nsf_exists: bool,
    config_exists: bool,
    onnx_exists: bool,
) -> (r: Vec<DownloadTask>)
    ensures
        nsf_exists ==> r@.len() == 0,
        !nsf_exists ==> {
            &&& r@.len() == (if config_exists { 0int } else { 1int }) + (if onnx_exists { 0int } else { 1int })
            &&& !config_exists ==> task_is(
                r@[0],
                path_with_file_name(nsf_hifigan@, "config.json"@),
                "https://huggingface.co/wok000/weights/raw/main/ddsp-svc30/nsf_hifigan_20221211/config.json"@,
            )
            &&& !onnx_exists ==> task_is(
                r@[r@.len() - 1],
                path_with_file_name(nsf_hifigan@, "nsf_hifigan.onnx"@),
                "https://huggingface.co/wok000/weights/resolve/main/ddsp-svc30/nsf_hifigan_onnx_20221211/nsf_hifigan.onnx"@,
            )
        },
{
    let mut v: Vec<DownloadTask> = Vec::new();
    if !nsf_exists {
        let (config_path, onnx_path) = nsf_hifigan_extra_paths(nsf_hifigan);
        if !config_exists {
            v.push(task(
                config_path.as_str(),
                "https://huggingface.co/wok000/weights/raw/main/ddsp-svc30/nsf_hifigan_20221211/config.json",
            ));
        }
        if !onnx_exists {
            v.push(task(
                onnx_path.as_str(),
                "https://huggingface.co/wok000/weights/resolve/main/ddsp-svc30/nsf_hifigan_onnx_20221211/nsf_hifigan.onnx",
            ));
        }
    }
    v
}


/// Options of one sample model download.
#[derive(Clone, Copy, Debug, PartialEq, Eq, Structural)]
pub struct SampleModelParam {
    pub use_index: bool,
}

impl Default for SampleModelParam {
    fn default() -> (r: Self)
        ensures
            !r.use_index,
    {
        SampleModelParam { use_index: false }
    }
}

/// A sample model as a sample catalogue lists it.
#[derive(Debug)]
pub struct Sample {
    pub id: String,
    pub model_url: String,
    pub index_url: Option<String>,
    pub icon: Option<String>,
}

/// The catalogues and the sample models that a sample mode downloads: for
/// `production`, the three catalogues of the 0004 series and the models
/// `Tsukuyomi-chan_o`, `Amitaro_o`, `KikotoMahiro_o` and `TokinaShigure_o`
/// (into slots 0 to 3, without index files); for any other mode, nothing.
pub fn get_sample_json_and_model_ids(mode: &str) -> (r: (Vec<&'static str>, Vec<(&'static str, SampleModelParam)>))
    ensures
        mode@ == "production"@ ==> {
            &&& r.0@.len() == 3
            &&& r.0@[0]@ == "https://huggingface.co/wok000/vcclient_model/raw/main/samples_0004_t.json"@
            &&& r.0@[1]@ == "https://huggingface.co/wok000/vcclient_model/raw/main/samples_0004_o.json"@
            &&& r.0@[2]@ == "https://huggingface.co/wok000/vcclient_model/raw/main/samples_0004_d.json"@
            &&& r.1@.len() == 4
            &&& r.1@[0].0@ == "Tsukuyomi-chan_o"@
            &&& r.1@[1].0@ == "Amitaro_o"@
            &&& r.1@[2].0@ == "KikotoMahiro_o"@
            &&& r.1@[3].0@ == "TokinaShigure_o"@
            &&& forall|i: int| 0 <= i < 4 ==> !(#[trigger] r.1@[i]).1.use_index
        },
        mode@ != "production"@ ==> r.0@.len() == 0 && r.1@.len() == 0,
{
    let mut urls: Vec<&'static str> = Vec::new();
    let mut models: Vec<(&'static str, SampleModelParam)> = Vec::new();
    if key_is(mode, "production") {
        urls.push("https://huggingface.co/wok000/vcclient_model/raw/main/samples_0004_t.json");
        urls.push("https://huggingface.co/wok000/vcclient_model/raw/main/samples_0004_o.json");
        urls.push("https://huggingface.co/wok000/vcclient_model/raw/main/samples_0004_d.json");
        models.push(("Tsukuyomi-chan_o", SampleModelParam { use_index: false }));
        models.push(("Amitaro_o", SampleModelParam { use_index: false }));
        models.push(("KikotoMahiro_o", SampleModelParam { use_index: false }));
        models.push(("TokinaShigure_o", SampleModelParam { use_index: false }));
    }
    (urls, models)
}

/// What to do for one sample model: no catalogue entry has its id; fetch
/// the listed files into the slot directory (created first); or a listed
/// URL has no file name to save it under.
#[derive(Debug)]
pub enum SlotPlan {
    NoSample,
    Download { slot_dir: String, tasks: Vec<DownloadTask> },
    MissingFileName,
}

/// Index of the first sample whose id is `id`.
pub open spec fn first_sample_with_id(samples: Seq<Sample>, id: Seq<char>) -> Option<int> {
    if exists|i: int| 0 <= i < samples.len() && (#[trigger] samples[i]).id@ == id {
        Some(choose|i: int| 0 <= i < samples.len() && (#[trigger] samples[i]).id@ == id && forall|j: int| 0 <= j < i ==> samples[j].id@ != id)
    } else {
        None
    }
}

/// The file saved for `url` in `dir`, when the URL has a file name.
pub open spec fn saved_in(dir: Seq<char>, url: Seq<char>) -> Option<Seq<char>> {
    match path_file_name(url) {
        Some(n) => Some(path_join(dir, n)),
        None => None,
    }
}

/// The downloads of a found sample into `dir`: its model, its index when
/// requested and listed, and its icon when listed; `None` when one of
/// these URLs has no file name.
pub open spec fn sample_tasks(s: Sample, use_index: bool, dir: Seq<char>) -> Option<Seq<(Seq<char>, Seq<char>)>> {
    let model = saved_in(dir, s.model_url@);
    let index: Option<Option<(Seq<char>, Seq<char>)>> = if use_index && s.index_url is Some {
        match saved_in(dir, s.index_url->0@) {
            Some(p) => Some(Some((s.index_url->0@, p))),
            None => None,
        }
    } else {
        Some(None)
    };
    let icon: Option<Option<(Seq<char>, Seq<char>)>> = if s.icon is Some {
        match saved_in(dir, s.icon->0@) {
            Some(p) => Some(Some((s.icon->0@, p))),
            None => None,
        }
    } else {
        Some(None)
    };
    if model is None || index is None || icon is None {
        None
    } else {
        let a = seq![(s.model_url@, model->0)];
        let b = match index->0 { Some(t) => a.push(t), None => a };
        Some(match icon->0 { Some(t) => b.push(t), None => b })
    }
}

/// Which files of a found sample are fetched, and in what order: its
/// model first; then its index, only where `use_index` is set and it lists
/// one; then its icon, where it lists one. Each is saved under its URL's
/// file name in `dir`, and the plan exists exactly when each fetched URL
/// has a file name.
pub proof fn law_sample_downloads_in_order(s: Sample, use_index: bool, dir: Seq<char>)
    ensures
        ({
            let with_index = use_index && s.index_url is Some;
            let n_index: int = if with_index { 1 } else { 0 };
            let n_icon: int = if s.icon is Some { 1 } else { 0 };
            &&& (sample_tasks(s, use_index, dir) is Some) == (saved_in(dir, s.model_url@) is Some && (with_index
                ==> saved_in(dir, s.index_url->0@) is Some) && (s.icon is Some ==> saved_in(dir, s.icon->0@) is Some))
            &&& sample_tasks(s, use_index, dir) matches Some(ts) ==> {
                &&& ts.len() == 1 + n_index + n_icon
                &&& ts[0] == (s.model_url@, saved_in(dir, s.model_url@)->0)
                &&& with_index ==> ts[1] == (s.index_url->0@, saved_in(dir, s.index_url->0@)->0)
                &&& s.icon is Some ==> ts[1 + n_index] == (s.icon->0@, saved_in(dir, s.icon->0@)->0)
            }
        }),
{
}

pub open spec fn task_pairs(t: Seq<DownloadTask>) -> Seq<(Seq<char>, Seq<char>)> {
    t.map_values(|d: DownloadTask| (d.url@, d.save_to@))
}

/// What to do for sample model `index` (its id and options) given the
/// catalogue `samples`: the first catalogue entry with the id is fetched
/// into `<model_dir>/<index>`.
pub open spec fn slot_plan_matches(
    r: SlotPlan,
    samples: Seq<Sample>,
    index: usize,
    sample_id: Seq<char>,
    use_index: bool,
    model_dir: Seq<char>,
) -> bool {
    let dir = path_join(model_dir, decimal(index as nat));
    match first_sample_with_id(samples, sample_id) {
        None => r is NoSample,
        Some(i) => match sample_tasks(samples[i], use_index, dir) {
            None => r is MissingFileName,
            Some(ts) => match r {
                SlotPlan::Download { slot_dir, tasks } => slot_dir@ == dir && task_pairs(tasks@) == ts,
                _ => false,
            },
        },
    }
}

fn find_sample(samples: &Vec<Sample>, id: &str) -> (r: Option<usize>)
    ensures
        r matches Some(k) ==> first_sample_with_id(samples@, id@) == Some(k as int) && k < samples@.len(),
        r is None ==> first_sample_with_id(samples@, id@) is None,
{
    let mut i: usize = 0;
    while i < samples.len()
        invariant
            i <= samples@.len(),
            forall|j: int| 0 <= j < i ==> samples@[j].id@ != id@,
        decreases samples@.len() - i,
    {
        if key_is(samples[i].id.as_str(), id) {
            assert(samples@[i as int].id@ == id@);
            let ghost c = choose|k: int| 0 <= k < samples@.len() && (#[trigger] samples@[k]).id@ == id@ && forall|j: int| 0 <= j < k ==> samples@[j].id@ != id@;
            proof {
                assert(0 <= i < samples@.len() && (samples@[i as int]).id@ == id@ && forall|j: int| 0 <= j < i ==> samples@[j].id@ != id@);
                if c < i {
                    assert(samples@[c].id@ != id@);
                }
                if c > i {
                    assert(samples@[i as int].id@ != id@);
                }
            }
            return Some(i);
        }
        i = i + 1;
    }
    None
}

fn saved_path(dir: &str, url: &str) -> (r: Option<String>)
    ensures
        match saved_in(dir@, url@) {
            Some(p) => r matches Some(s) && s@ == p,
            None => r is None,
        },
{
    match file_name_of(url) {
        Some(n) => Some(join_path(dir, n.as_str())),
        None => None,
    }
}

/// The plan for sample model `index` of a sample mode.
pub fn plan_slot_download(
    samples: &Vec<Sample>,
    index: usize,
    sample_id: &str,
    param: &SampleModelParam,
    model_dir: &str,
) -> (r: SlotPlan)
    ensures
        slot_plan_matches(r, samples@, index, sample_id@, param.use_index, model_dir@),
{
    let found = find_sample(samples, sample_id);
    match found {
        None => SlotPlan::NoSample,
        Some(i) => {
            let s = &samples[i];
            let name = usize_to_string(index);
            let dir = join_path(model_dir, name.as_str());
            let mut tasks: Vec<DownloadTask> = Vec::new();
            let model_path = saved_path(dir.as_str(), s.model_url.as_str());
            assert(first_sample_with_id(samples@, sample_id@) == Some(i as int));
            match model_path {
                None => {
                    assert(sample_tasks(samples@[i as int], param.use_index, dir@) is None);
                    return SlotPlan::MissingFileName;
                },
                Some(p) => tasks.push(DownloadTask { url: s.model_url.clone(), save_to: p }),
            }
            if param.use_index {
                if let Some(index_url) = &s.index_url {
                    match saved_path(dir.as_str(), index_url.as_str()) {
                        None => {
                            assert(sample_tasks(samples@[i as int], param.use_index, dir@) is None);
                            return SlotPlan::MissingFileName;
                        },
                        Some(p) => tasks.push(DownloadTask { url: index_url.clone(), save_to: p }),
                    }
                }
            }
            if let Some(icon) = &s.icon {
                match saved_path(dir.as_str(), icon.as_str()) {
                    None => return SlotPlan::MissingFileName,
                    Some(p) => tasks.push(DownloadTask { url: icon.clone(), save_to: p }),
                }
            }
            let r = SlotPlan::Download { slot_dir: dir, tasks };
            proof {
                let ts = sample_tasks(samples@[i as int], param.use_index, dir@);
                assert(ts is Some);
                assert(task_pairs(tasks@) =~= ts->0);
            }
            r
        },
    }
}

/// The plans of all sample models of a sample mode, in slot order.
pub fn plan_sample_downloads(
    samples: &Vec<Sample>,
    sample_models: &Vec<(&'static str, SampleModelParam)>,
    model_dir: &str,
) -> (r: Vec<SlotPlan>)
    ensures
        r@.len() == sample_models@.len(),
        forall|i: int|
            0 <= i < r@.len() ==> slot_plan_matches(
                #[trigger] r@[i],
                samples@,
                i as usize,
                sample_models@[i].0@,
                sample_models@[i].1.use_index,
                model_dir@,
            ),
{
    let mut out: Vec<SlotPlan> = Vec::new();
    let mut i: usize = 0;
    while i < sample_models.len()
        invariant
            i <= sample_models@.len(),
            out@.len() == i,
            forall|j: int|
                0 <= j < i ==> slot_plan_matches(
                    #[trigger] out@[j],
                    samples@,
                    j as usize,
                    sample_models@[j].0@,
                    sample_models@[j].1.use_index,
                    model_dir@,
                ),
        decreases sample_models@.len() - i,
    {
        let (id, param) = sample_models[i];
        out.push(plan_slot_download(samples, i, id, &param, model_dir));
        i = i + 1;
    }
    out
}

} // verus!
