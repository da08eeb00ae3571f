use brainfuck_benchmark::acquire::{
    curl_file, fetch_plan, git_repo, git_repo_branch, AcquireError, Found,
};
use brainfuck_benchmark::cmake::{build_cmake, cmake_lists, create_cmake};
use brainfuck_benchmark::platform::Platform;
use brainfuck_benchmark::process::{
    arguments, begin, command, command_in, extend_steps, no_steps, proceed, push_step,
    run_command, run_command_with_pipe, text_file, CapturedOutput, Command, FileWrite, Finished,
    ProcessFailure, Step, Walk,
};

fn strings(items: &[&str]) -> Vec<String> {
    items.iter().map(|s| s.to_string()).collect()
}

fn cmd(program: &str, args: &[&str], dir: Option<&str>) -> Command {
    Command {
        program: program.to_string(),
        args: strings(args),
        current_dir: dir.map(|d| d.to_string()),
    }
}

#[test]
fn commands_are_built_from_their_parts() {
    assert_eq!(arguments(&["a", "b"]), strings(&["a", "b"]));
    assert_eq!(arguments(&[]), Vec::<String>::new());
    assert_eq!(command("make", strings(&["-C", "x"])), cmd("make", &["-C", "x"], None));
    assert_eq!(command_in("cargo", strings(&["build"]), "src"), cmd("cargo", &["build"], Some("src")));
}

#[test]
fn plans_grow_at_the_end() {
    let mut steps = no_steps();
    assert!(steps.is_empty());
    push_step(&mut steps, Step::CreateDirAll { path: "a".to_string() });
    extend_steps(
        &mut steps,
        vec![
            Step::RemoveDirAll { path: "b".to_string() },
            Step::MakeExecutable { path: "c".to_string() },
        ],
    );
    assert_eq!(
        steps,
        vec![
            Step::CreateDirAll { path: "a".to_string() },
            Step::RemoveDirAll { path: "b".to_string() },
            Step::MakeExecutable { path: "c".to_string() },
        ]
    );
}

#[test]
fn git_repo_clones_what_is_absent() {
    assert_eq!(
        git_repo("https://example.org/x.git", "build/src/x", Found::Nothing),
        Ok(cmd("git", &["clone", "https://example.org/x.git", "build/src/x"], None))
    );
}

#[test]
fn git_repo_fast_forwards_what_is_present() {
    assert_eq!(
        git_repo("https://example.org/x.git", "build/src/x", Found::Directory),
        Ok(cmd("git", &["pull", "--ff-only", "origin", "master"], Some("build/src/x")))
    );
}

#[test]
fn git_repo_branch_clones_the_branch_when_absent() {
    assert_eq!(
        git_repo_branch("https://example.org/x.git", "build/src/x", "v1", Found::Nothing),
        Ok(cmd(
            "git",
            &["clone", "https://example.org/x.git", "build/src/x", "--branch", "v1"],
            None
        ))
    );
}

#[test]
fn git_repo_branch_checks_out_the_branch_when_present() {
    assert_eq!(
        git_repo_branch("https://example.org/x.git", "build/src/x", "v1", Found::Directory),
        Ok(cmd("git", &["checkout", "v1"], Some("build/src/x")))
    );
}

#[test]
fn acquisition_is_idempotent() {
    for present_url in ["https://example.org/x.git", "other"] {
        let again = git_repo(present_url, "build/src/x", Found::Directory).unwrap();
        assert_eq!(again.args, strings(&["pull", "--ff-only", "origin", "master"]));
        assert_eq!(again.current_dir.as_deref(), Some("build/src/x"));
        let pinned = git_repo_branch(present_url, "build/src/x", "v1", Found::Directory).unwrap();
        assert_ne!(pinned.args[0], "clone");
    }
    for found in [Found::Directory, Found::Other] {
        assert!(curl_file("http://example.org/x", "build/out/x", found, Platform::Other).is_empty());
        assert!(curl_file("http://example.org/x", "build/out/x", found, Platform::Windows).is_empty());
    }
}

#[test]
fn what_is_no_directory_is_never_taken_for_a_checkout() {
    assert_eq!(git_repo("u", "build/src/x", Found::Other), Err(AcquireError::NotADirectory));
    assert_eq!(
        git_repo_branch("u", "build/src/x", "v1", Found::Other),
        Err(AcquireError::NotADirectory)
    );
    assert_eq!(fetch_plan(git_repo("u", "f", Found::Other)), Err(AcquireError::NotADirectory));
    assert_eq!(
        fetch_plan(git_repo("u", "f", Found::Nothing)),
        Ok(vec![Step::Run { command: cmd("git", &["clone", "u", "f"], None) }])
    );
}

#[test]
fn curl_file_downloads_and_marks_executable() {
    assert_eq!(
        curl_file("http://example.org/x", "build/out/x", Found::Nothing, Platform::Other),
        vec![
            Step::Run {
                command: cmd("curl", &["-L", "http://example.org/x", "--output", "build/out/x"], None)
            },
            Step::MakeExecutable { path: "build/out/x".to_string() },
        ]
    );
}

#[test]
fn curl_file_on_windows_only_downloads() {
    assert_eq!(
        curl_file("http://example.org/x.exe", "build/out/x", Found::Nothing, Platform::Windows),
        vec![Step::Run {
            command: cmd("curl", &["-L", "http://example.org/x.exe", "--output", "build/out/x"], None)
        }]
    );
}

#[test]
fn cmake_lists_for_two_files() {
    let files = strings(&["/w/build/src/x/a.c", "/w/build/src/x/b.c"]);
    assert_eq!(
        cmake_lists("sbfi", &files),
        "cmake_minimum_required(VERSION 3.12)\n\
         project(sbfi LANGUAGES C CXX)\n\
         set(CMAKE_RUNTIME_OUTPUT_DIRECTORY ${CMAKE_BINARY_DIR})\n\
         add_executable(\n    sbfi\n    \"/w/build/src/x/a.c\"\n    \"/w/build/src/x/b.c\"\n)"
    );
}

#[test]
fn cmake_lists_for_one_file_and_for_none() {
    assert_eq!(
        cmake_lists("x", &strings(&["/a.c"])),
        "cmake_minimum_required(VERSION 3.12)\nproject(x LANGUAGES C CXX)\nset(CMAKE_RUNTIME_OUTPUT_DIRECTORY ${CMAKE_BINARY_DIR})\nadd_executable(\n    x\n    \"/a.c\"\n)"
    );
    assert_eq!(
        cmake_lists("x", &Vec::new()),
        "cmake_minimum_required(VERSION 3.12)\nproject(x LANGUAGES C CXX)\nset(CMAKE_RUNTIME_OUTPUT_DIRECTORY ${CMAKE_BINARY_DIR})\nadd_executable(\n    x\n    \n)"
    );
}

#[test]
fn cmake_lists_writes_slashes_only() {
    let files = strings(&["C:\\w\\a.cpp", "C:\\w\\sub\\b.cpp", "C:\\w\\c.cpp"]);
    assert_eq!(
        cmake_lists("bfcc", &files),
        "cmake_minimum_required(VERSION 3.12)\nproject(bfcc LANGUAGES C CXX)\nset(CMAKE_RUNTIME_OUTPUT_DIRECTORY ${CMAKE_BINARY_DIR})\nadd_executable(\n    bfcc\n    \"C:/w/a.cpp\"\n    \"C:/w/sub/b.cpp\"\n    \"C:/w/c.cpp\"\n)"
    );
}

#[test]
fn create_cmake_never_overwrites() {
    let files = strings(&["/a.c"]);
    assert_eq!(create_cmake("x", "build/src/x", &files, true, Platform::Other), None);
    assert_eq!(create_cmake("x", "build/src/x", &files, true, Platform::Windows), None);
}

#[test]
fn create_cmake_writes_into_the_source_directory() {
    let files = strings(&["/a.c"]);
    assert_eq!(
        create_cmake("x", "build/src/x", &files, false, Platform::Other),
        Some(FileWrite {
            path: "build/src/x/CMakeLists.txt".to_string(),
            contents: cmake_lists("x", &files).into_bytes(),
        })
    );
    assert_eq!(
        create_cmake("x", "build/src/x", &files, false, Platform::Windows).unwrap().path,
        "build/src/x\\CMakeLists.txt"
    );
}

#[test]
fn build_cmake_configures_then_builds() {
    assert_eq!(
        build_cmake("sbfi", "build/out/x", "build/src/x", Platform::Other),
        vec![
            Step::Run {
                command: cmd(
                    "cmake",
                    &["-S", "build/src/x", "-B", "build/out/x", "-DCMAKE_BUILD_TYPE=Release"],
                    None
                )
            },
            Step::Run {
                command: cmd("cmake", &["--build", "build/out/x", "--config", "release"], None)
            },
        ]
    );
}

#[test]
fn build_cmake_on_windows_copies_the_binary_up() {
    let steps = build_cmake("sbfi", "build/out/x", "build/src/x", Platform::Windows);
    assert_eq!(steps.len(), 3);
    assert_eq!(steps[..2], build_cmake("sbfi", "build/out/x", "build/src/x", Platform::Other)[..]);
    assert_eq!(
        steps[2],
        Step::CopyFile {
            from: "build/out/x\\Release\\sbfi.exe".to_string(),
            to: "build/out/x\\sbfi.exe".to_string(),
        }
    );
}

fn finished(code: i32) -> Finished {
    Finished { code, stdout: b"out".to_vec(), stderr: b"err".to_vec() }
}

#[test]
fn exit_code_zero_is_success() {
    assert_eq!(
        run_command(cmd("true", &[], None), finished(0)),
        Ok(CapturedOutput { stdout: b"out".to_vec(), stderr: b"err".to_vec() })
    );
}

#[test]
fn any_other_exit_code_is_a_failure() {
    for code in [1, 2, -1, 255, i32::MIN, i32::MAX] {
        assert_eq!(
            run_command(cmd("false", &["x"], Some("d")), finished(code)),
            Err(ProcessFailure {
                command: cmd("false", &["x"], Some("d")),
                code,
                stdout: b"out".to_vec(),
                stderr: b"err".to_vec(),
            })
        );
    }
}

#[test]
fn output_is_piped_to_the_file_on_success() {
    assert_eq!(
        run_command_with_pipe(cmd("python", &["t.py"], None), finished(0), "build/out/x.c"),
        Ok(FileWrite { path: "build/out/x.c".to_string(), contents: b"out".to_vec() })
    );
}

#[test]
fn nothing_is_piped_on_failure() {
    let outcome = run_command_with_pipe(cmd("python", &["t.py"], None), finished(1), "x.c");
    assert_eq!(outcome.unwrap_err().code, 1);
}

#[test]
fn command_line_joins_program_and_arguments() {
    assert_eq!(cmd("git", &["pull", "--ff"], None).line(), "git pull --ff");
    assert_eq!(cmd("make", &[], None).line(), "make");
    assert_eq!(cmd("a", &["", "b"], None).line(), "a  b");
}

#[test]
fn failure_report_names_command_code_and_streams() {
    let failure = ProcessFailure {
        command: cmd("git", &["clone", "u", "d"], None),
        code: 128,
        stdout: b"so".to_vec(),
        stderr: b"fatal: no".to_vec(),
    };
    assert_eq!(
        failure.report(),
        "Command git clone u d output 128:\n\nSTDOUT:\nso\n\nSTDERR:\nfatal: no"
    );
}

#[test]
fn failure_report_with_negative_code_and_empty_streams() {
    let failure = ProcessFailure {
        command: cmd("x", &[], None),
        code: -7,
        stdout: Vec::new(),
        stderr: Vec::new(),
    };
    assert_eq!(failure.report(), "Command x output -7:\n\nSTDOUT:\n\n\nSTDERR:\n");
}

#[test]
fn piped_output_reaches_the_file_byte_for_byte() {
    let bytes = vec![0xff, 0x00, b'a', 0xc3, 0x28, b'\n', 0xe2, 0x82];
    let done = Finished { code: 0, stdout: bytes.clone(), stderr: vec![0xfe] };
    assert_eq!(
        run_command_with_pipe(cmd("python", &["t.py"], None), done, "x.c"),
        Ok(FileWrite { path: "x.c".to_string(), contents: bytes })
    );
}

#[test]
fn failure_report_reads_the_streams_as_text() {
    let failure = ProcessFailure {
        command: cmd("x", &[], None),
        code: 1,
        stdout: "höhö".as_bytes().to_vec(),
        stderr: vec![b'a', 0xff, b'b'],
    };
    assert_eq!(failure.report(), "Command x output 1:\n\nSTDOUT:\nhöhö\n\nSTDERR:\na\u{fffd}b");
}

#[test]
fn text_files_hold_the_text_as_utf8() {
    assert_eq!(
        text_file("p".to_string(), "é\n"),
        FileWrite { path: "p".to_string(), contents: vec![0xc3, 0xa9, b'\n'] }
    );
    assert_eq!(text_file(String::new(), "").contents, Vec::<u8>::new());
}

fn plan(n: usize) -> Vec<Step> {
    (0..n).map(|i| Step::CreateDirAll { path: format!("d{i}") }).collect()
}

#[test]
fn steps_are_taken_one_after_the_other() {
    let steps = plan(3);
    assert_eq!(begin(&steps), Walk::Step(0));
    assert_eq!(proceed(&steps, 0, true, false), Walk::Step(1));
    assert_eq!(proceed(&steps, 1, true, false), Walk::Step(2));
    assert_eq!(proceed(&steps, 2, true, false), Walk::Completed);
    assert_eq!(begin(&plan(0)), Walk::Completed);
}

#[test]
fn a_failed_step_ends_the_plan() {
    let steps = plan(3);
    for position in 0..3 {
        assert_eq!(proceed(&steps, position, false, false), Walk::Aborted);
    }
}

#[test]
fn a_lenient_plan_passes_over_failures() {
    let steps = plan(2);
    assert_eq!(proceed(&steps, 0, false, true), Walk::Step(1));
    assert_eq!(proceed(&steps, 1, false, true), Walk::Completed);
    assert_eq!(proceed(&steps, 1, true, true), Walk::Completed);
}

#[test]
fn a_position_beyond_the_plan_is_its_end() {
    let steps = plan(1);
    assert_eq!(proceed(&steps, 7, true, false), Walk::Completed);
    assert_eq!(proceed(&steps, usize::MAX, true, false), Walk::Completed);
    assert_eq!(proceed(&steps, usize::MAX, false, false), Walk::Aborted);
}

#[test]
fn the_rest_of_a_build_is_skipped_when_configuring_fails() {
    let steps = build_cmake("sbfi", "build/out/x", "build/src/x", Platform::Windows);
    let mut carried_out = Vec::new();
    let mut walk = begin(&steps);
    while let Walk::Step(position) = walk {
        carried_out.push(position);
        walk = proceed(&steps, position, false, false);
    }
    assert_eq!(carried_out, vec![0]);
    assert_eq!(walk, Walk::Aborted);
}
