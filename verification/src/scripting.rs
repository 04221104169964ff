//! Python script generation for Jupiter-Web batch mode.

use vstd::prelude::*;
use crate::error::ConversionError;
use crate::models::{ConversionInput, ConversionMode, import_command, export_command, file_type_label};
use crate::paths::{forward_slashes, join, path_join};
use crate::filesystem::{FsUtils, sanitized_stem, unique_name};

verus! {

/// Lines joined with `\n` between them.
pub open spec fn join_lines(lines: Seq<Seq<char>>) -> Seq<char>
    decreases lines.len(),
{
    if lines.len() == 0 {
        Seq::empty()
    } else if lines.len() == 1 {
        lines[0]
    } else {
        join_lines(lines.drop_last()) + seq!['\n'] + lines.last()
    }
}

/// The import line for one input, if its type can be imported.
pub open spec fn input_import(i: ConversionInput) -> Option<Seq<char>> {
    import_command(i.file_type, forward_slashes(i.path@))
}

/// The export line that writes the model of input `i` to `out`.
pub open spec fn input_export(i: ConversionInput, out: Seq<char>) -> Seq<char> {
    export_command(i.file_type, forward_slashes(out))
}

/// Whether every input of `inputs` can be imported.
pub open spec fn all_importable(inputs: Seq<ConversionInput>) -> bool {
    forall|j: int| 0 <= j < inputs.len() ==> #[trigger] input_import(inputs[j]) is Some
}

/// The import lines of all inputs, which must all be importable.
pub open spec fn import_lines(inputs: Seq<ConversionInput>) -> Seq<Seq<char>> {
    inputs.map_values(|i: ConversionInput| input_import(i)->0)
}

/// What a script builder answers: the joined lines when every input can be
/// imported, and otherwise the error of the first that cannot.
pub open spec fn script_result_ok(
    inputs: Seq<ConversionInput>,
    lines: Seq<Seq<char>>,
    r: Result<String, ConversionError>,
) -> bool {
    if all_importable(inputs) {
        r matches Ok(s) && s@ == join_lines(lines)
    } else {
        exists|k: int| {
            &&& 0 <= k < inputs.len()
            &&& input_import(inputs[k]) is None
            &&& forall|j: int| 0 <= j < k ==> #[trigger] input_import(inputs[j]) is Some
            &&& r matches Err(ConversionError::ImportNotSupported { file_type })
            &&& file_type@ == file_type_label(inputs[k].file_type)
        }
    }
}

/// Generates Jupiter Python scripts.
pub struct ScriptingEngine;

impl ScriptingEngine {
    /// Script for a single file: its import line, then its export line.
    pub fn generate_single_content(input: &ConversionInput, output_path: &str) -> (r: Result<
        String,
        ConversionError,
    >)
        ensures
            script_result_ok(
                seq![*input],
                seq![input_import(*input)->0, input_export(*input, output_path@)],
                r,
            ),
    {
        let import = input.generate_import_command();
        match import {
            Ok(line) => {
                let mut s = line;
                s.append("\n");
                let export = input.generate_export_command(output_path);
                s.append(export.as_str());
                proof {
                    reveal_strlit("\n");
                    let lines = seq![input_import(*input)->0, input_export(*input, output_path@)];
                    assert(lines.drop_last() =~= seq![input_import(*input)->0]);
                    assert(join_lines(lines.drop_last()) == input_import(*input)->0);
                    assert("\n"@ =~= seq!['\n']);
                    assert(seq![*input][0] == *input);
                    assert(all_importable(seq![*input]));
                    assert(s@ =~= join_lines(lines));
                }
                Ok(s)
            },
            Err(e) => {
                proof {
                    assert(seq![*input][0] == *input);
                    assert(!all_importable(seq![*input]));
                }
                Err(e)
            },
        }
    }

    /// Script for combining: all import lines, then one export line written
    /// for the first input's type.
    pub fn generate_combine_content(inputs: &Vec<ConversionInput>, output_path: &str) -> (r: Result<
        String,
        ConversionError,
    >)
        requires
            inputs@.len() > 0,
        ensures
            script_result_ok(
                inputs@,
                import_lines(inputs@).push(input_export(inputs@[0], output_path@)),
                r,
            ),
    {
        let mut s = String::new();
        let mut i: usize = 0;
        while i < inputs.len()
            invariant
                i <= inputs@.len(),
                forall|j: int| 0 <= j < i ==> #[trigger] input_import(inputs@[j]) is Some,
                i > 0 ==> s@ == join_lines(import_lines(inputs@.take(i as int))),
                i == 0 ==> s@.len() == 0,
            decreases inputs@.len() - i,
        {
            match inputs[i].generate_import_command() {
                Ok(line) => {
                    let ghost prev = s@;
                    if i > 0 {
                        s.append("\n");
                    }
                    s.append(line.as_str());
                    proof {
                        reveal_strlit("\n");
                        let l = import_lines(inputs@.take(i + 1));
                        assert(l.drop_last() =~= import_lines(inputs@.take(i as int)));
                        assert("\n"@ =~= seq!['\n']);
                        assert(inputs@.take(i + 1)[i as int] == inputs@[i as int]);
                        assert(l[i as int] == line@);
                        if i == 0 {
                            assert(l.len() == 1);
                            assert(s@ =~= join_lines(l));
                        } else {
                            assert(l.len() >= 2);
                            assert(l.last() == line@);
                            assert(prev == join_lines(l.drop_last()));
                            assert(join_lines(l) == join_lines(l.drop_last()) + seq!['\n'] + l.last());
                            assert(s@ =~= join_lines(l));
                        }
                    }
                },
                Err(e) => {
                    proof {
                        assert(input_import(inputs@[i as int]) is None);
                        assert(!all_importable(inputs@));
                    }
                    return Err(e);
                },
            }
            i = i + 1;
        }
        s.append("\n");
        let export = inputs[0].generate_export_command(output_path);
        s.append(export.as_str());
        proof {
            reveal_strlit("\n");
            assert(inputs@.take(inputs@.len() as int) =~= inputs@);
            let l = import_lines(inputs@).push(input_export(inputs@[0], output_path@));
            assert(l.drop_last() =~= import_lines(inputs@));
            assert("\n"@ =~= seq!['\n']);
            assert(s@ =~= join_lines(l));
        }
        Ok(s)
    }

    /// Where a job's script is written: a fresh `DirectConvert` Python file
    /// in the job's temporary directory.
    pub fn script_path(temp_dir: &str) -> (r: String)
        ensures
            exists|token: Seq<char>| token.len() == 32 && r@ == join(
                temp_dir@,
                unique_name(sanitized_stem("DirectConvert"@), token, "py"@),
            ),
    {
        let name = FsUtils::generate_unique_filename("DirectConvert", "py");
        path_join(temp_dir, name.as_str())
    }

    /// The content of the script for a conversion job: the first input alone
    /// in Single mode, the primary input alone in Assembly mode, and all
    /// inputs in Combine mode.
    pub fn script_content(
        inputs: &Vec<ConversionInput>,
        output_path: &str,
        mode: ConversionMode,
        primary_input: Option<&ConversionInput>,
    ) -> (r: Result<String, ConversionError>)
        ensures
            inputs@.len() == 0 ==> r matches Err(ConversionError::NoInputs),
            inputs@.len() > 0 && mode == ConversionMode::Single ==> script_result_ok(
                seq![inputs@[0]],
                seq![input_import(inputs@[0])->0, input_export(inputs@[0], output_path@)],
                r,
            ),
            inputs@.len() > 0 && mode == ConversionMode::Assembly ==> match primary_input {
                Some(p) => script_result_ok(
                    seq![*p],
                    seq![input_import(*p)->0, input_export(*p, output_path@)],
                    r,
                ),
                None => r matches Err(ConversionError::PrimaryNotSpecified),
            },
            inputs@.len() > 0 && mode == ConversionMode::Combine ==> script_result_ok(
                inputs@,
                import_lines(inputs@).push(input_export(inputs@[0], output_path@)),
                r,
            ),
    {
        if inputs.len() == 0 {
            return Err(ConversionError::NoInputs);
        }
        match mode {
            ConversionMode::Single => Self::generate_single_content(&inputs[0], output_path),
            ConversionMode::Assembly => match primary_input {
                Some(p) => Self::generate_single_content(p, output_path),
                None => Err(ConversionError::PrimaryNotSpecified),
            },
            ConversionMode::Combine => Self::generate_combine_content(inputs, output_path),
        }
    }
}

} // verus!
