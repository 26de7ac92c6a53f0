use vstd::prelude::*;

use crate::error::ConvertError;
use crate::format::{get_format, lower_of, raster_format_of, same_text};
use crate::path::{extension, extension_of, with_extension, with_extension_of};

verus! {

/// What a request to convert `input` into `output` turns into.
#[derive(Debug, Clone, PartialEq, Eq)]
pub enum Conversion {
    /// Every file under the input directory is converted into the format
    /// held, under the output directory.
    Directory(String),
    /// The input file is converted into the output file; the format held,
    /// where there is one, overrides the output's extension.
    File(Option<String>),
}

/// Decides between a directory and a single-file conversion. A directory
/// conversion takes place only where both paths are existing directories,
/// and it needs an explicit format.
pub fn convert(input_is_dir: bool, output_is_dir: bool, format: &Option<String>) -> (r: Result<
    Conversion,
    ConvertError,
>)
    ensures
        input_is_dir && output_is_dir ==> match *format {
            Some(f) => r matches Ok(Conversion::Directory(g)) && g@ == f@,
            None => r == Err::<Conversion, ConvertError>(ConvertError::MissingFormat),
        },
        !(input_is_dir && output_is_dir) ==> (r matches Ok(Conversion::File(g)) && match (
            g,
            *format,
        ) {
            (Some(a), Some(b)) => a@ == b@,
            (None, None) => true,
            _ => false,
        }),
{
    if input_is_dir && output_is_dir {
        match format {
            Some(f) => Ok(Conversion::Directory(f.as_str().to_string())),
            None => Err(ConvertError::MissingFormat),
        }
    } else {
        let g = match format {
            Some(f) => Some(f.as_str().to_string()),
            None => None,
        };
        Ok(Conversion::File(g))
    }
}

/// The format name a single-file conversion writes: the explicit one where
/// given, else the output path's extension.
pub open spec fn chosen_format(format: Option<String>, output: Seq<char>) -> Option<Seq<char>> {
    match format {
        Some(f) => Some(f@),
        None => extension_of(output),
    }
}

/// Finds the format name for a single-file conversion.
pub fn resolve_format(format: &Option<String>, output: &str) -> (r: Result<String, ConvertError>)
    ensures
        match chosen_format(*format, output@) {
            Some(name) => r matches Ok(s) && s@ == name,
            None => r == Err::<String, ConvertError>(ConvertError::NoExtension),
        },
{
    match format {
        Some(f) => Ok(f.as_str().to_string()),
        None => match extension(output) {
            Some(e) => Ok(e),
            None => Err(ConvertError::NoExtension),
        },
    }
}

/// Which decoder reads an input file.
#[derive(Debug, Clone, Copy, PartialEq, Eq)]
pub enum Source {
    /// A Valve texture file.
    Vtf,
    /// Any format the raster codec recognises.
    Raster,
}

/// Inputs whose extension is exactly `vtf` are read as Valve texture files.
pub open spec fn source_of(input: Seq<char>) -> Source {
    if extension_of(input) == Some("vtf"@) {
        Source::Vtf
    } else {
        Source::Raster
    }
}

/// Chooses the decoder for an input path.
pub fn source_kind(input: &str) -> (r: Source)
    ensures
        r == source_of(input@),
{
    proof {
        reveal_strlit("vtf");
    }
    match extension(input) {
        Some(e) => if same_text(e.as_str(), "vtf") {
            Source::Vtf
        } else {
            Source::Raster
        },
        None => Source::Raster,
    }
}

/// The encoding an output is written in.
#[derive(Debug, Clone, Copy, PartialEq, Eq)]
pub enum Target {
    /// An uncompressed RGBA Valve texture file.
    Vtf,
    /// A raster format of the raster codec.
    Raster(image::ImageFormat),
}

/// The target that a format name stands for: exactly `vtf` for a texture
/// file, else a raster format named without regard to case.
pub open spec fn target_of(name: Seq<char>) -> Option<Target> {
    if name == "vtf"@ {
        Some(Target::Vtf)
    } else {
        match raster_format_of(lower_of(name)) {
            Some(f) => Some(Target::Raster(f)),
            None => None,
        }
    }
}

/// Chooses the encoding for a format name; an unknown name is refused with
/// an error that holds it.
pub fn target_for(name: &str) -> (r: Result<Target, ConvertError>)
    ensures
        match target_of(name@) {
            Some(t) => r == Ok::<Target, ConvertError>(t),
            None => r matches Err(ConvertError::UnsupportedFormat(n)) && n@ == name@,
        },
{
    proof {
        reveal_strlit("vtf");
    }
    if same_text(name, "vtf") {
        Ok(Target::Vtf)
    } else {
        match get_format(name) {
            Ok(f) => Ok(Target::Raster(f)),
            Err(e) => Err(e),
        }
    }
}

/// Where a file found under the input directory lands under the output
/// directory: the same components, with the file name's extension replaced
/// by the format. `rel` holds the file's path relative to the input
/// directory, one component per element.
pub fn mirror_path(rel: &Vec<String>, format: &str) -> (r: Vec<String>)
    ensures
        r@.len() == rel@.len(),
        forall|i: int| 0 <= i < rel@.len() - 1 ==> (#[trigger] r@[i])@ == rel@[i]@,
        rel@.len() > 0 ==> r@.last()@ == with_extension_of(rel@.last()@, format@),
{
    let n = rel.len();
    let mut r: Vec<String> = Vec::new();
    let mut i: usize = 0;
    while i < n
        invariant
            n == rel@.len(),
            i <= n,
            r@.len() == i,
            forall|j: int| 0 <= j < i && j < n - 1 ==> (#[trigger] r@[j])@ == rel@[j]@,
            i == n && n > 0 ==> r@.last()@ == with_extension_of(rel@.last()@, format@),
        decreases n - i,
    {
        let c = if i + 1 == n {
            with_extension(rel[i].as_str(), format)
        } else {
            rel[i].as_str().to_string()
        };
        r.push(c);
        i = i + 1;
    }
    r
}

/// How many of the outcomes equal `v`.
pub open spec fn count_of(outcomes: Seq<bool>, v: bool) -> nat
    decreases outcomes.len(),
{
    if outcomes.len() == 0 {
        0
    } else {
        count_of(outcomes.drop_last(), v) + if outcomes.last() == v {
            1nat
        } else {
            0nat
        }
    }
}

/// Where every outcome succeeded, all of them count as converted and none
/// as failed.
proof fn lemma_all_converted(outcomes: Seq<bool>)
    requires
        forall|j: int| 0 <= j < outcomes.len() ==> #[trigger] outcomes[j],
    ensures
        count_of(outcomes, true) == outcomes.len(),
        count_of(outcomes, false) == 0,
    decreases outcomes.len(),
{
    if outcomes.len() > 0 {
        let rest = outcomes.drop_last();
        assert forall|j: int| 0 <= j < rest.len() implies #[trigger] rest[j] by {
            assert(rest[j] == outcomes[j]);
        }
        lemma_all_converted(rest);
    }
}

/// In a directory conversion where the file at position `k` fails and
/// every other file converts, the failure costs exactly that one file: all
/// the others are counted as converted.
pub proof fn lemma_one_failure_spares_the_rest(outcomes: Seq<bool>, k: int)
    requires
        0 <= k < outcomes.len(),
        !outcomes[k],
        forall|j: int| 0 <= j < outcomes.len() && j != k ==> #[trigger] outcomes[j],
    ensures
        count_of(outcomes, true) == outcomes.len() - 1,
        count_of(outcomes, false) == 1,
    decreases outcomes.len(),
{
    let rest = outcomes.drop_last();
    if k == outcomes.len() - 1 {
        assert forall|j: int| 0 <= j < rest.len() implies #[trigger] rest[j] by {
            assert(rest[j] == outcomes[j]);
        }
        lemma_all_converted(rest);
    } else {
        assert forall|j: int| 0 <= j < rest.len() && j != k implies #[trigger] rest[j] by {
            assert(rest[j] == outcomes[j]);
        }
        assert(rest[k] == outcomes[k]);
        lemma_one_failure_spares_the_rest(rest, k);
    }
}

/// What a directory conversion did: how many files it converted and how
/// many it had to skip.
#[derive(Debug, Clone, Copy, PartialEq, Eq)]
pub struct BatchReport {
    pub converted: u64,
    pub failed: u64,
}

/// Sums up the outcomes of a directory conversion, one per file, in the
/// order the files were visited. A failed file is counted and passed over:
/// it does not stop the files after it.
pub fn tally(outcomes: &Vec<bool>) -> (r: BatchReport)
    requires
        outcomes@.len() <= u64::MAX,
    ensures
        r.converted == count_of(outcomes@, true),
        r.failed == count_of(outcomes@, false),
{
    let mut r = BatchReport { converted: 0, failed: 0 };
    let mut i: usize = 0;
    while i < outcomes.len()
        invariant
            i <= outcomes@.len() <= u64::MAX,
            r.converted == count_of(outcomes@.subrange(0, i as int), true),
            r.failed == count_of(outcomes@.subrange(0, i as int), false),
            r.converted + r.failed == i,
        decreases outcomes@.len() - i,
    {
        assert(outcomes@.subrange(0, i + 1).drop_last() == outcomes@.subrange(0, i as int));
        if outcomes[i] {
            r.converted = r.converted + 1;
        } else {
            r.failed = r.failed + 1;
        }
        i = i + 1;
    }
    assert(outcomes@.subrange(0, i as int) == outcomes@);
    r
}

} // verus!
