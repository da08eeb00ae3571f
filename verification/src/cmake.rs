//! Native build adapter: CMake build descriptions and their builds.

use vstd::prelude::*;
use vstd::string::*;
use crate::platform::Platform;
use crate::process::{
    arguments, command, text_file, CommandView, FileWrite, FileWriteView, Step, StepView,
};
use crate::text::{forward_slashes, join, join_path, join_path_spec, joined, slashed};

verus! {

/// `path` between double quotes.
pub open spec fn quoted(path: Seq<char>) -> Seq<char> {
    seq!['"'] + path + seq!['"']
}

/// The text of a build description for one executable `name` compiled from
/// `files`, with the output directory pinned to the build root. Backslashes
/// are written as slashes throughout.
pub open spec fn cmake_lists_spec(name: Seq<char>, files: Seq<Seq<char>>) -> Seq<char> {
    slashed(
        "cmake_minimum_required(VERSION 3.12)\nproject("@ + name
            + " LANGUAGES C CXX)\nset(CMAKE_RUNTIME_OUTPUT_DIRECTORY ${CMAKE_BINARY_DIR})\nadd_executable(\n    "@
            + name + "\n    "@ + joined(files.map_values(|f: Seq<char>| quoted(f)), "\n    "@)
            + "\n)"@,
    )
}

/// The text of the build description for the executable `name` and the
/// translation units `files` (absolute paths).
pub fn cmake_lists(name: &str, files: &Vec<String>) -> (text: String)
    ensures
        text@ == cmake_lists_spec(name@, files.deep_view()),
{
    let mut quoted_files: Vec<String> = Vec::new();
    let mut i: usize = 0;
    while i < files.len()
        invariant
            i <= files.len(),
            quoted_files.len() == i,
            forall|j: int| 0 <= j < i ==> quoted_files@[j]@ == quoted(#[trigger] files@[j]@),
        decreases files.len() - i,
    {
        let mut q = String::new();
        q.append("\"");
        q.append(files[i].as_str());
        q.append("\"");
        proof {
            reveal_strlit("\"");
            assert("\""@ =~= seq!['"']);
        }
        quoted_files.push(q);
        i += 1;
    }
    assert(quoted_files.deep_view() =~= files.deep_view().map_values(|f: Seq<char>| quoted(f)));
    let files_str = join(&quoted_files, "\n    ");
    let mut text = String::from_str("cmake_minimum_required(VERSION 3.12)\nproject(");
    text.append(name);
    text.append(
        " LANGUAGES C CXX)\nset(CMAKE_RUNTIME_OUTPUT_DIRECTORY ${CMAKE_BINARY_DIR})\nadd_executable(\n    ",
    );
    text.append(name);
    text.append("\n    ");
    text.append(files_str.as_str());
    text.append("\n)");
    forward_slashes(text.as_str())
}

/// The build description to write into `src_dir`, if any.
pub open spec fn create_cmake_spec(
    name: Seq<char>,
    src_dir: Seq<char>,
    files: Seq<Seq<char>>,
    present: bool,
    platform: Platform,
) -> Option<FileWriteView> {
    if present {
        None
    } else {
        Some(
            FileWriteView {
                path: join_path_spec(src_dir, "CMakeLists.txt"@, platform),
                contents: vstd::utf8::encode_utf8(cmake_lists_spec(name, files)),
            },
        )
    }
}

/// Generates the build description for the executable `name` built from
/// `files`, to be written to `CMakeLists.txt` in `src_dir`. Nothing is to be
/// written if a description is already `present` there: one written by hand
/// is never replaced.
pub fn create_cmake(
    name: &str,
    src_dir: &str,
    files: &Vec<String>,
    present: bool,
    platform: Platform,
) -> (write: Option<FileWrite>)
    ensures
        write.deep_view() == create_cmake_spec(
            name@,
            src_dir@,
            files.deep_view(),
            present,
            platform,
        ),
{
    if present {
        None
    } else {
        Some(
            text_file(
                join_path(src_dir, "CMakeLists.txt", platform),
                cmake_lists(name, files).as_str(),
            ),
        )
    }
}

/// The two invocations that configure and build, in that order.
pub open spec fn cmake_commands(output_dir: Seq<char>, src_dir: Seq<char>) -> Seq<StepView> {
    seq![
        StepView::Run {
            command: CommandView {
                program: "cmake"@,
                args: seq!["-S"@, src_dir, "-B"@, output_dir, "-DCMAKE_BUILD_TYPE=Release"@],
                current_dir: None,
            },
        },
        StepView::Run {
            command: CommandView {
                program: "cmake"@,
                args: seq!["--build"@, output_dir, "--config"@, "release"@],
                current_dir: None,
            },
        },
    ]
}

/// The plan that builds `src_dir` into `output_dir`: configure out of tree
/// in release mode, build, and on Windows copy the executable `name` from the
/// `Release` subdirectory up into `output_dir`.
pub open spec fn build_cmake_spec(
    name: Seq<char>,
    output_dir: Seq<char>,
    src_dir: Seq<char>,
    platform: Platform,
) -> Seq<StepView> {
    match platform {
        Platform::Windows => cmake_commands(output_dir, src_dir).push(
            StepView::CopyFile {
                from: join_path_spec(
                    join_path_spec(output_dir, "Release"@, platform),
                    name + ".exe"@,
                    platform,
                ),
                to: join_path_spec(output_dir, name + ".exe"@, platform),
            },
        ),
        Platform::Other => cmake_commands(output_dir, src_dir),
    }
}

/// Plans the build of the description in `src_dir` into `output_dir`.
pub fn build_cmake(name: &str, output_dir: &str, src_dir: &str, platform: Platform) -> (steps: Vec<
    Step,
>)
    ensures
        steps.deep_view() == build_cmake_spec(name@, output_dir@, src_dir@, platform),
{
    let configure = arguments(&["-S", src_dir, "-B", output_dir, "-DCMAKE_BUILD_TYPE=Release"]);
    assert(configure.deep_view() =~= seq![
        "-S"@,
        src_dir@,
        "-B"@,
        output_dir@,
        "-DCMAKE_BUILD_TYPE=Release"@,
    ]);
    let build = arguments(&["--build", output_dir, "--config", "release"]);
    assert(build.deep_view() =~= seq!["--build"@, output_dir@, "--config"@, "release"@]);
    let mut steps: Vec<Step> = Vec::new();
    steps.push(Step::Run { command: command("cmake", configure) });
    steps.push(Step::Run { command: command("cmake", build) });
    assert(steps.deep_view() =~= cmake_commands(output_dir@, src_dir@));
    match platform {
        Platform::Windows => {
            let mut exe = String::from_str(name);
            exe.append(".exe");
            let release = join_path(output_dir, "Release", platform);
            let from = join_path(release.as_str(), exe.as_str(), platform);
            let to = join_path(output_dir, exe.as_str(), platform);
            let ghost before = steps.deep_view();
            steps.push(Step::CopyFile { from, to });
            assert(steps.deep_view() =~= before.push(steps@.last().deep_view()));
        },
        Platform::Other => {},
    }
    steps
}

} // verus!
