//! Locally-stored model files: directory layout, completeness check, and
//! download sources.

use vstd::prelude::*;

verus! {

/// The models directory under a data directory.
pub fn models_dir(data_dir: &str) -> (r: String)
    ensures
        r@ == data_dir@ + "/voxkey/models"@,
{
    let mut r = data_dir.to_owned();
    r.append("/voxkey/models");
    r
}

/// The directory of one model under a data directory.
pub fn model_dir(data_dir: &str, model_name: &str) -> (r: String)
    ensures
        r@ == data_dir@ + "/voxkey/models/"@ + model_name@,
{
    let mut r = data_dir.to_owned();
    r.append("/voxkey/models/");
    r.append(model_name);
    r
}

/// The four files a model needs before local inference can run.
pub fn required_model_files() -> (r: Vec<String>)
    ensures
        r@.len() == 4,
        r@[0]@ == "encoder.int8.onnx"@,
        r@[1]@ == "decoder.int8.onnx"@,
        r@[2]@ == "joiner.int8.onnx"@,
        r@[3]@ == "tokens.txt"@,
{
    let mut r: Vec<String> = Vec::new();
    r.push(String::from_str("encoder.int8.onnx"));
    r.push(String::from_str("decoder.int8.onnx"));
    r.push(String::from_str("joiner.int8.onnx"));
    r.push(String::from_str("tokens.txt"));
    r
}

/// Whether `name` is among `present`.
pub open spec fn name_present(present: Seq<Seq<char>>, name: Seq<char>) -> bool {
    exists|i: int| 0 <= i < present.len() && present[i] == name
}

/// Whether one name is in the list of present files.
fn contains_name(present: &Vec<String>, name: &str) -> (r: bool)
    ensures
        r == name_present(Seq::new(present@.len(), |i: int| present@[i]@), name@),
{
    let ghost names = Seq::new(present@.len(), |i: int| present@[i]@);
    let own = name.to_owned();
    let mut i: usize = 0;
    while i < present.len()
        invariant
            i <= present@.len(),
            own@ == name@,
            names == Seq::new(present@.len(), |j: int| present@[j]@),
            forall|j: int| 0 <= j < i ==> names[j] != name@,
        decreases present@.len() - i,
    {
        if present[i] == own {
            proof {
                assert(names[i as int] == name@);
            }
            return true;
        }
        i = i + 1;
    }
    false
}

/// Whether all required model files are among the file names found in the
/// model's directory.
pub fn is_model_available(present: &Vec<String>) -> (r: bool)
    ensures
        r == {
            let names = Seq::new(present@.len(), |i: int| present@[i]@);
            name_present(names, "encoder.int8.onnx"@) && name_present(
                names,
                "decoder.int8.onnx"@,
            ) && name_present(names, "joiner.int8.onnx"@) && name_present(names, "tokens.txt"@)
        },
{
    contains_name(present, "encoder.int8.onnx") && contains_name(present, "decoder.int8.onnx")
        && contains_name(present, "joiner.int8.onnx") && contains_name(present, "tokens.txt")
}

/// Download status of one model, as watched by the control surface.
#[derive(Clone, Debug)]
pub enum DownloadStatus {
    /// Download in progress. Percent is 0-100 across all files.
    InProgress(u8),
    /// Download completed successfully.
    Complete,
    /// Download failed.
    Failed(String),
}

/// Source directory for the version-two quantized model.
pub const V2_BASE_URL: &'static str =
    "https://huggingface.co/csukuangfj/sherpa-onnx-nemo-parakeet-tdt-0.6b-v2-int8/resolve/main";

/// Source directory for the version-three quantized model.
pub const V3_BASE_URL: &'static str =
    "https://huggingface.co/csukuangfj/sherpa-onnx-nemo-parakeet-tdt-0.6b-v3-int8/resolve/main";

/// The download source for a model name; unknown names are refused.
pub fn base_url(model_name: &str) -> (r: Result<&'static str, String>)
    ensures
        model_name@ == "parakeet-tdt-0.6b-v2"@ ==> (r matches Ok(u) ==> u@ == V2_BASE_URL@) && (
        r is Ok),
        model_name@ == "parakeet-tdt-0.6b-v3"@ ==> (r matches Ok(u) ==> u@ == V3_BASE_URL@) && (
        r is Ok),
        model_name@ != "parakeet-tdt-0.6b-v2"@ && model_name@ != "parakeet-tdt-0.6b-v3"@ ==> (
        r matches Err(e) ==> e@ == "Unknown model: "@ + model_name@) && (r is Err),
{
    proof {
        reveal_strlit("parakeet-tdt-0.6b-v2");
        reveal_strlit("parakeet-tdt-0.6b-v3");
        assert("parakeet-tdt-0.6b-v2"@.len() == 20);
        assert("parakeet-tdt-0.6b-v3"@.len() == 20);
        assert("parakeet-tdt-0.6b-v2"@[19] == '2');
        assert("parakeet-tdt-0.6b-v3"@[19] == '3');
    }
    let own = model_name.to_owned();
    if own == String::from_str("parakeet-tdt-0.6b-v2") {
        Ok(V2_BASE_URL)
    } else if own == String::from_str("parakeet-tdt-0.6b-v3") {
        Ok(V3_BASE_URL)
    } else {
        let mut e = String::from_str("Unknown model: ");
        e.append(model_name);
        Err(e)
    }
}

/// The percentage reported once the file at index `i` of `total` is done.
pub fn file_done_percent(i: usize, total: usize) -> (r: u8)
    requires
        0 < total <= 1000,
        i < total,
    ensures
        r == ((i + 1) * 100) / (total as int),
        r <= 100,
{
    proof {
        assert(((i + 1) * 100) / (total as int) <= 100) by (nonlinear_arith)
            requires
                0 < total,
                i < total,
        ;
    }
    (((i + 1) * 100) / total) as u8
}

} // verus!
