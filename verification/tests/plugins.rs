use brainfuck_benchmark::acquire::{AcquireError, Found};
use brainfuck_benchmark::benchmark::Benchmark;
use brainfuck_benchmark::bf_impl::{
    checkout, code_span, command_pattern, invoke, label, replace_in_lines, rewrite,
    rewrite_command, Artifact,
    AsumagicAshbfBfImpl,
    BFImpl, BfcBfImpl, CwfitzgeraldBfccBfImpl, CwfitzgeraldBfccOldBfImpl, DethraidBrainfuckBfImpl,
    GardrekStvmBfImpl, KotayBffsreeBfImpl, LifthrasiirEsotopeBfImpl, RdebathTritiumBfImpl,
    RdebathTritiumMode, RinoldmSbfiBfImpl, WilfredBfcBfImpl,
};
use brainfuck_benchmark::platform::Platform;
use brainfuck_benchmark::process::{Command, Step};
use brainfuck_benchmark::roster::{roster, Implementation};

fn strings(items: &[&str]) -> Vec<String> {
    items.iter().map(|s| s.to_string()).collect()
}

fn run(program: &str, args: &[&str], dir: Option<&str>) -> Step {
    Step::Run {
        command: Command {
            program: program.to_string(),
            args: strings(args),
            current_dir: dir.map(|d| d.to_string()),
        },
    }
}

fn mkdir(path: &str) -> Step {
    Step::CreateDirAll { path: path.to_string() }
}

fn rmdir(path: &str) -> Step {
    Step::RemoveDirAll { path: path.to_string() }
}

fn cmake(out: &str, src: &str) -> Vec<Step> {
    vec![
        run("cmake", &["-S", src, "-B", out, "-DCMAKE_BUILD_TYPE=Release"], None),
        run("cmake", &["--build", out, "--config", "release"], None),
    ]
}

fn input() -> Benchmark {
    Benchmark { file_name: "hanoi.bf".to_string(), path: "/w/benches/hanoi.bf".to_string() }
}

#[test]
fn a_checkout_is_a_directory() {
    assert_eq!(checkout("build/src/x"), Artifact::Directory { path: "build/src/x".to_string() });
    assert_eq!(checkout("build/src/x").path(), "build/src/x");
}

#[test]
fn labels_link_the_name_to_the_website() {
    assert_eq!(label("a/b", "https://example.org"), "[a/b](https://example.org)");
    assert_eq!(label("", ""), "[]()");
}

#[test]
fn command_lines_are_separated_by_single_spaces() {
    assert_eq!(invoke("exe", "", "f.bf"), "exe f.bf");
    assert_eq!(invoke("exe", "-i", "f.bf"), "exe -i f.bf");
}

#[test]
fn patterns_escape_the_command() {
    assert_eq!(command_pattern("build/out/x/x"), "`build/out/x/x.*?`");
    assert_eq!(command_pattern("a.out"), "`a\\.out.*?`");
    assert_eq!(command_pattern("a-b+c"), "`a\\-b\\+c.*?`");
    assert_eq!(
        command_pattern("\\.+*?()|[]{}^$#&-~"),
        "`\\\\\\.\\+\\*\\?\\(\\)\\|\\[\\]\\{\\}\\^\\$\\#\\&\\-\\~.*?`"
    );
    assert_eq!(code_span("a.out"), "`a.out`");
    assert_eq!(code_span(""), "``");
}

#[test]
fn rewriting_replaces_the_whole_backticked_span() {
    let raw = "| Command | Mean [ms] |\n|:---|---:|\n| `build/out/x/x input.bf` | 1.0 |\n| `other input.bf` | 2.0 |\n";
    assert_eq!(
        rewrite_command(raw.to_string(), "build/out/x/x", "[displayName](sourceURL)"),
        "| Command | Mean [ms] |\n|:---|---:|\n| [displayName](sourceURL) | 1.0 |\n| `other input.bf` | 2.0 |\n"
    );
}

#[test]
fn rewriting_replaces_every_occurrence() {
    let raw = "`x a` and `x b`\n`x`\n`y`";
    assert_eq!(rewrite_command(raw.to_string(), "x", "L"), "L and L\nL\n`y`");
}

#[test]
fn rewriting_leaves_a_report_without_the_command_alone() {
    let raw = "| `other input.bf` | 2.0 |\nbuild/out/x/x without marks\n";
    assert_eq!(rewrite_command(raw.to_string(), "build/out/x/x", "L"), raw);
    assert_eq!(rewrite_command(String::new(), "build/out/x/x", "L"), "");
}

#[test]
fn rewriting_takes_the_command_literally() {
    let raw = "`aXout f` `a.out f`";
    assert_eq!(rewrite_command(raw.to_string(), "a.out", "L"), "`aXout f` L");
}

#[test]
fn rewriting_takes_the_label_literally() {
    assert_eq!(rewrite_command("`x f`".to_string(), "x", "$0 ${1} \\"), "$0 ${1} \\");
}

#[test]
fn rewriting_stops_at_the_nearest_closing_mark() {
    assert_eq!(rewrite_command("`x f` tail `z`".to_string(), "x", "L"), "L tail `z`");
}

#[test]
fn rewriting_does_not_reach_across_lines() {
    let raw = "`x f\nmore` end";
    assert_eq!(rewrite_command(raw.to_string(), "x", "L"), raw);
}

#[test]
fn rewriting_keeps_the_lines_apart() {
    let raw = "`x a`\n\n`y`\r\n`x b` `x c`\r\n\n";
    assert_eq!(rewrite_command(raw.to_string(), "x", "L"), "L\n\n`y`\r\nL L\r\n\n");
    assert_eq!(rewrite_command("\n".to_string(), "x", "L"), "\n");
}

#[test]
fn rewriting_leaves_lines_without_the_command_byte_identical() {
    let raw = "| Command | Mean [ms] | Min [ms] |\n|:---|---:|---:|\n| `a f` | 1.0 ± 0.1 | 0.9 |\n| `b f` | 2.0 | 1.9 |\n  trailing\t \n";
    let rewritten = rewrite_command(raw.to_string(), "b", "[B](u)");
    let before: Vec<&str> = raw.split('\n').collect();
    let after: Vec<&str> = rewritten.split('\n').collect();
    assert_eq!(before.len(), after.len());
    for (i, (old, new)) in before.iter().zip(after.iter()).enumerate() {
        if i == 3 {
            assert_eq!(*new, "| [B](u) | 2.0 | 1.9 |");
        } else {
            assert_eq!(old, new);
        }
    }
}

#[test]
fn rewriting_with_a_broken_pattern_returns_the_text() {
    assert_eq!(rewrite("`x`".to_string(), "(", "L"), "`x`");
    assert_eq!(rewrite("`x`".to_string(), "x", "L"), "`L`");
}

#[test]
fn asumagic_ashbf() {
    let p = AsumagicAshbfBfImpl;
    assert_eq!(p.name(), "asumagic/ashbf");
    assert!(p.interpreted());
    assert!(p.enabled(Platform::Other) && p.enabled(Platform::Windows));
    assert_eq!(p.artifact(), Artifact::Directory { path: "build/src/asumagic/ashbf".to_string() });
    assert_eq!(
        p.get(Found::Nothing, Platform::Other),
        Ok(vec![run(
            "git",
            &[
                "clone",
                "https://github.com/AsuMagic/AshBF.git",
                "build/src/asumagic/ashbf",
                "--branch",
                "5b77debb34e81ad40904dac9b848fbf288a0fdd0"
            ],
            None
        )])
    );
    assert_eq!(
        p.get(Found::Directory, Platform::Other),
        Ok(vec![run(
            "git",
            &["checkout", "5b77debb34e81ad40904dac9b848fbf288a0fdd0"],
            Some("build/src/asumagic/ashbf")
        )])
    );
    let mut build = vec![mkdir("build/out/asumagic/ashbf")];
    build.extend(cmake("build/out/asumagic/ashbf", "build/src/asumagic/ashbf"));
    assert_eq!(p.build(Platform::Other), build);
    assert!(p.prepare(&input(), Platform::Other).is_empty());
    assert_eq!(
        p.get_invoke_command(&input()),
        "build/out/asumagic/ashbf/ashbf /w/benches/hanoi.bf"
    );
    assert_eq!(
        p.filter_output("| `build/out/asumagic/ashbf/ashbf /w/benches/hanoi.bf` | 1 |".to_string()),
        "| [asumagic/ashbf](https://github.com/AsuMagic/AshBF) | 1 |"
    );
}

#[test]
fn cwfitzgerald_bfcc() {
    let p = CwfitzgeraldBfccBfImpl;
    assert_eq!(p.name(), "cwfitzgerald/bfcc");
    assert!(p.interpreted());
    assert!(p.enabled(Platform::Other) && p.enabled(Platform::Windows));
    assert_eq!(p.artifact(), Artifact::Directory { path: "build/src/cwfitzgerald/bfcc".to_string() });
    assert_eq!(
        p.get(Found::Nothing, Platform::Other),
        Ok(vec![run(
            "git",
            &["clone", "https://github.com/cwfitzgerald/bfcc.git", "build/src/cwfitzgerald/bfcc"],
            None
        )])
    );
    assert_eq!(
        p.get(Found::Directory, Platform::Other),
        Ok(vec![run("git", &["pull", "--ff-only", "origin", "master"], Some("build/src/cwfitzgerald/bfcc"))])
    );
    let mut build = vec![
        mkdir("build/out/cwfitzgerald/bfcc"),
        Step::CreateCmake {
            name: "bfcc".to_string(),
            src_dir: "build/src/cwfitzgerald/bfcc".to_string(),
            glob: "build/src/cwfitzgerald/bfcc/**/*.cpp".to_string(),
        },
    ];
    build.extend(cmake("build/out/cwfitzgerald/bfcc", "build/src/cwfitzgerald/bfcc"));
    build.push(rmdir("build/out/cwfitzgerald/bfcc"));
    assert_eq!(p.build(Platform::Other), build);
    assert!(p.prepare(&input(), Platform::Other).is_empty());
    assert_eq!(
        p.get_invoke_command(&input()),
        "build/src/cwfitzgerald/bfcc/bfcc -i /w/benches/hanoi.bf"
    );
    assert_eq!(
        p.filter_output("`build/src/cwfitzgerald/bfcc/bfcc -i /w/benches/hanoi.bf`".to_string()),
        "[cwfitzgerald/bfcc](https://github.com/cwfitzgerald/bfcc)"
    );
}

#[test]
fn cwfitzgerald_bfcc_old() {
    let p = CwfitzgeraldBfccOldBfImpl;
    assert_eq!(p.name(), "cwfitzgerald/bfcc-old");
    assert!(p.interpreted());
    assert!(p.enabled(Platform::Other) && p.enabled(Platform::Windows));
    assert_eq!(p.artifact(), Artifact::Directory { path: "build/src/cwfitzgerald/bfcc-old".to_string() });
    assert_eq!(
        p.get(Found::Nothing, Platform::Other),
        Ok(vec![run(
            "git",
            &[
                "clone",
                "https://github.com/cwfitzgerald/bfcc-old.git",
                "build/src/cwfitzgerald/bfcc-old"
            ],
            None
        )])
    );
    assert_eq!(
        p.build(Platform::Other),
        vec![
            mkdir("build/src/cwfitzgerald/bfcc-old/bin"),
            run("make", &["-C", "build/src/cwfitzgerald/bfcc-old"], None),
        ]
    );
    assert_eq!(p.build(Platform::Windows)[0], mkdir("build/src/cwfitzgerald/bfcc-old\\bin"));
    assert!(p.prepare(&input(), Platform::Other).is_empty());
    assert_eq!(
        p.get_invoke_command(&input()),
        "build/src/cwfitzgerald/bfcc-old/bfcc -i /w/benches/hanoi.bf"
    );
    assert_eq!(
        p.filter_output("`build/src/cwfitzgerald/bfcc-old/bfcc -i f`".to_string()),
        "[cwfitzgerald/bfcc-old](https://github.com/cwfitzgerald/bfcc-old)"
    );
}

#[test]
fn bfcc_and_its_predecessor_do_not_rewrite_each_other() {
    let new = "`build/src/cwfitzgerald/bfcc/bfcc -i f`";
    let old = "`build/src/cwfitzgerald/bfcc-old/bfcc -i f`";
    assert_eq!(CwfitzgeraldBfccBfImpl.filter_output(old.to_string()), old);
    assert_eq!(CwfitzgeraldBfccOldBfImpl.filter_output(new.to_string()), new);
}

#[test]
fn dethraid_brainfuck() {
    let p = DethraidBrainfuckBfImpl;
    assert_eq!(p.name(), "dethraid/brainfuck");
    assert!(p.interpreted());
    assert!(p.enabled(Platform::Other) && p.enabled(Platform::Windows));
    assert_eq!(p.artifact(), Artifact::Directory { path: "build/src/dethraid/brainfuck".to_string() });
    assert_eq!(
        p.get(Found::Nothing, Platform::Other),
        Ok(vec![run(
            "git",
            &["clone", "https://github.com/dethraid/brainfuck.git", "build/src/dethraid/brainfuck"],
            None
        )])
    );
    assert_eq!(
        p.build(Platform::Other),
        vec![
            run("premake5", &["gmake2"], Some("build/src/dethraid/brainfuck")),
            run(
                "make",
                &["config=release_linux", "all", "-C", "build/src/dethraid/brainfuck"],
                None
            ),
        ]
    );
    assert_eq!(
        p.build(Platform::Windows),
        vec![
            run("premake5", &["vs2019"], Some("build/src/dethraid/brainfuck")),
            run(
                "msbuild",
                &["/p:Configuration=Release", "/p:Platform=Win64"],
                Some("build/src/dethraid/brainfuck")
            ),
        ]
    );
    assert!(p.prepare(&input(), Platform::Other).is_empty());
    assert_eq!(
        p.get_invoke_command(&input()),
        "build/src/dethraid/brainfuck/bin/Release/bf /w/benches/hanoi.bf"
    );
    assert_eq!(
        p.filter_output("`build/src/dethraid/brainfuck/bin/Release/bf f`".to_string()),
        "[dethraid/brainfuck](https://github.com/dethraid/brainfuck)"
    );
}

#[test]
fn gardrek_stvm() {
    let p = GardrekStvmBfImpl;
    assert_eq!(p.name(), "gardrek/stvm");
    assert!(p.interpreted());
    assert!(p.enabled(Platform::Other) && p.enabled(Platform::Windows));
    assert_eq!(p.artifact(), Artifact::Directory { path: "build/src/gardrek/stvm".to_string() });
    assert_eq!(
        p.get(Found::Nothing, Platform::Other),
        Ok(vec![run(
            "git",
            &["clone", "https://github.com/gardrek/stvm.git", "build/src/gardrek/stvm"],
            None
        )])
    );
    assert_eq!(
        p.build(Platform::Other),
        vec![
            mkdir("build/out/gardrek/stvm"),
            run("cargo", &["build", "--release"], Some("build/src/gardrek/stvm")),
        ]
    );
    assert!(p.prepare(&input(), Platform::Other).is_empty());
    assert_eq!(
        p.get_invoke_command(&input()),
        "build/src/gardrek/stvm/target/release/main --bf /w/benches/hanoi.bf"
    );
    assert_eq!(
        p.filter_output("`build/src/gardrek/stvm/target/release/main --bf f`".to_string()),
        "[gardrek/stvm](https://github.com/gardrek/stvm)"
    );
}

#[test]
fn kotay_bffsree() {
    let p = KotayBffsreeBfImpl;
    assert_eq!(p.name(), "kotay/bffsree");
    assert!(p.interpreted());
    assert!(p.enabled(Platform::Other) && p.enabled(Platform::Windows));
    assert_eq!(
        p.artifact(),
        Artifact::File { path: "build/out/kotay/bffsree/bffsree".to_string() }
    );
    assert_eq!(p.artifact().path(), "build/out/kotay/bffsree/bffsree");
    assert_eq!(
        p.get(Found::Nothing, Platform::Other),
        Ok(vec![
            mkdir("build/out/kotay/bffsree"),
            run(
                "curl",
                &[
                    "-L",
                    "http://www.kotay.com/sree/bf/bffsree",
                    "--output",
                    "build/out/kotay/bffsree/bffsree"
                ],
                None
            ),
            Step::MakeExecutable { path: "build/out/kotay/bffsree/bffsree".to_string() },
        ])
    );
    assert_eq!(
        p.get(Found::Nothing, Platform::Windows),
        Ok(vec![
            mkdir("build/out/kotay/bffsree"),
            run(
                "curl",
                &[
                    "-L",
                    "http://www.kotay.com/sree/bf/bffsree_gcc.exe",
                    "--output",
                    "build/out/kotay/bffsree/bffsree"
                ],
                None
            ),
        ])
    );
    assert_eq!(
        p.get(Found::Directory, Platform::Other),
        Ok(vec![mkdir("build/out/kotay/bffsree")])
    );
    assert_eq!(
        p.get(Found::Other, Platform::Windows),
        Ok(vec![mkdir("build/out/kotay/bffsree")])
    );
    assert!(p.build(Platform::Other).is_empty());
    assert!(p.prepare(&input(), Platform::Other).is_empty());
    assert_eq!(
        p.get_invoke_command(&input()),
        "build/out/kotay/bffsree/bffsree /w/benches/hanoi.bf || true"
    );
    assert_eq!(
        p.filter_output("| `build/out/kotay/bffsree/bffsree f || true` |".to_string()),
        "| [kotay/bffsree](http://sree.kotay.com/2013/02/implementing-brainfuck.html) |"
    );
}

#[test]
fn lifthrasiir_esotope_bfc() {
    let p = LifthrasiirEsotopeBfImpl;
    assert_eq!(p.name(), "lifthrasiir/esotope-bfc");
    assert!(!p.interpreted());
    assert!(p.enabled(Platform::Other) && p.enabled(Platform::Windows));
    assert_eq!(p.artifact(), Artifact::Directory { path: "build/src/lifthrasiir/esotope-bfc".to_string() });
    assert_eq!(
        p.get(Found::Nothing, Platform::Other),
        Ok(vec![run(
            "git",
            &[
                "clone",
                "https://github.com/lifthrasiir/esotope-bfc.git",
                "build/src/lifthrasiir/esotope-bfc"
            ],
            None
        )])
    );
    assert!(p.build(Platform::Other).is_empty());
    let scratch = "build/out/lifthrasiir/esotope-bfc/scratch";
    let mut prepare = vec![
        mkdir(scratch),
        Step::RunWithPipe {
            command: Command {
                program: "python".to_string(),
                args: strings(&[
                    "build/src/lifthrasiir/esotope-bfc/esotope-bfc",
                    "/w/benches/hanoi.bf",
                ]),
                current_dir: None,
            },
            output: "build/out/lifthrasiir/esotope-bfc/scratch/esotope-bfc.c".to_string(),
        },
        Step::CreateCmake {
            name: "esotope_bfc".to_string(),
            src_dir: scratch.to_string(),
            glob: "build/out/lifthrasiir/esotope-bfc/scratch/esotope-bfc.c".to_string(),
        },
    ];
    prepare.extend(cmake(scratch, scratch));
    prepare.push(Step::CopyFile {
        from: "build/out/lifthrasiir/esotope-bfc/scratch/esotope_bfc".to_string(),
        to: "build/out/lifthrasiir/esotope-bfc/esotope_bfc".to_string(),
    });
    prepare.push(rmdir(scratch));
    assert_eq!(p.prepare(&input(), Platform::Other), prepare);
    let on_windows = p.prepare(&input(), Platform::Windows);
    assert_eq!(on_windows.len(), 8);
    assert_eq!(
        on_windows[1],
        Step::RunWithPipe {
            command: Command {
                program: "py".to_string(),
                args: strings(&[
                    "-2",
                    "build/src/lifthrasiir/esotope-bfc\\esotope-bfc",
                    "/w/benches/hanoi.bf"
                ]),
                current_dir: None,
            },
            output: "build/out/lifthrasiir/esotope-bfc/scratch\\esotope-bfc.c".to_string(),
        }
    );
    assert_eq!(
        on_windows[5],
        Step::CopyFile {
            from: "build/out/lifthrasiir/esotope-bfc/scratch\\Release\\esotope_bfc.exe".to_string(),
            to: "build/out/lifthrasiir/esotope-bfc/scratch\\esotope_bfc.exe".to_string(),
        }
    );
    assert_eq!(
        on_windows[6],
        Step::CopyFile {
            from: "build/out/lifthrasiir/esotope-bfc/scratch\\esotope_bfc.exe".to_string(),
            to: "build/out/lifthrasiir/esotope-bfc/esotope_bfc.exe".to_string(),
        }
    );
    assert_eq!(on_windows[7], rmdir(scratch));
    assert_eq!(
        p.get_invoke_command(&input()),
        "build/out/lifthrasiir/esotope-bfc/esotope_bfc -i /w/benches/hanoi.bf"
    );
    assert_eq!(
        p.filter_output("`build/out/lifthrasiir/esotope-bfc/esotope_bfc -i f`".to_string()),
        "[lifthrasiir/esotope-bfc](https://github.com/lifthrasiir/esotope-bfc)"
    );
}

#[test]
fn rdebath_tritium_modes() {
    assert_eq!(RdebathTritiumMode::ArrayInterpreter.flag(), "-r");
    assert_eq!(RdebathTritiumMode::DynASM.flag(), "-q");
    assert_eq!(RdebathTritiumMode::LightningJIT.flag(), "-j");
    assert_eq!(RdebathTritiumMode::ArrayInterpreter.kind(), "Array Interpreter");
    assert_eq!(RdebathTritiumMode::DynASM.kind(), "DynASM JIT");
    assert_eq!(RdebathTritiumMode::LightningJIT.kind(), "GNU Lightning JIT");
}

#[test]
fn rdebath_tritium() {
    let p = RdebathTritiumBfImpl(RdebathTritiumMode::DynASM);
    assert_eq!(p.name(), "rdebath/Brainfuck/tritium (DynASM JIT)");
    assert_eq!(
        RdebathTritiumBfImpl(RdebathTritiumMode::ArrayInterpreter).name(),
        "rdebath/Brainfuck/tritium (Array Interpreter)"
    );
    assert_eq!(
        RdebathTritiumBfImpl(RdebathTritiumMode::LightningJIT).name(),
        "rdebath/Brainfuck/tritium (GNU Lightning JIT)"
    );
    assert!(p.interpreted());
    assert!(p.enabled(Platform::Other));
    assert!(!p.enabled(Platform::Windows));
    assert_eq!(p.artifact(), Artifact::Directory { path: "build/src/rdebath/brainfuck".to_string() });
    assert_eq!(
        p.get(Found::Nothing, Platform::Other),
        Ok(vec![run(
            "git",
            &["clone", "https://github.com/rdebath/Brainfuck.git", "build/src/rdebath/brainfuck"],
            None
        )])
    );
    assert_eq!(
        p.build(Platform::Other),
        vec![
            mkdir("build/out/rdebath/brainfuck"),
            run("make", &["-C", "build/src/rdebath/brainfuck/tritium"], None),
        ]
    );
    assert!(p.prepare(&input(), Platform::Other).is_empty());
    assert_eq!(
        p.get_invoke_command(&input()),
        "build/src/rdebath/brainfuck/tritium/bfi.out -q /w/benches/hanoi.bf"
    );
}

#[test]
fn rdebath_tritium_rewrites_its_own_back_end_only() {
    let raw = "| `build/src/rdebath/brainfuck/tritium/bfi.out -r f` |\n\
               | `build/src/rdebath/brainfuck/tritium/bfi.out -q f` |\n\
               | `build/src/rdebath/brainfuck/tritium/bfi.out -j f` |\n";
    assert_eq!(
        RdebathTritiumBfImpl(RdebathTritiumMode::DynASM).filter_output(raw.to_string()),
        "| `build/src/rdebath/brainfuck/tritium/bfi.out -r f` |\n\
         | [rdebath/Brainfuck/tritium (DynASM JIT)](https://github.com/rdebath/Brainfuck/tree/master/tritium) |\n\
         | `build/src/rdebath/brainfuck/tritium/bfi.out -j f` |\n"
    );
    assert_eq!(
        RdebathTritiumBfImpl(RdebathTritiumMode::ArrayInterpreter)
            .filter_output("`build/src/rdebath/brainfuck/tritium/bfi.out   -r f`".to_string()),
        "[rdebath/Brainfuck/tritium (Array Interpreter)](https://github.com/rdebath/Brainfuck/tree/master/tritium)"
    );
    assert_eq!(
        RdebathTritiumBfImpl(RdebathTritiumMode::LightningJIT)
            .filter_output("`build/src/rdebath/brainfuck/tritium/bfiXout -j f`".to_string()),
        "`build/src/rdebath/brainfuck/tritium/bfiXout -j f`"
    );
}

#[test]
fn rinoldm_sbfi() {
    let p = RinoldmSbfiBfImpl;
    assert_eq!(p.name(), "rinoldm/sbfi");
    assert!(p.interpreted());
    assert!(p.enabled(Platform::Other) && p.enabled(Platform::Windows));
    assert_eq!(p.artifact(), Artifact::Directory { path: "build/src/rinoldm/sbfi".to_string() });
    assert_eq!(
        p.get(Found::Nothing, Platform::Other),
        Ok(vec![run(
            "git",
            &["clone", "https://github.com/rinoldm/sbfi.git", "build/src/rinoldm/sbfi"],
            None
        )])
    );
    let mut build = vec![
        mkdir("build/out/rinoldm/sbfi"),
        Step::CreateCmake {
            name: "sbfi".to_string(),
            src_dir: "build/src/rinoldm/sbfi".to_string(),
            glob: "build/src/rinoldm/sbfi/*.c".to_string(),
        },
    ];
    build.extend(cmake("build/out/rinoldm/sbfi", "build/src/rinoldm/sbfi"));
    assert_eq!(p.build(Platform::Other), build);
    assert!(p.prepare(&input(), Platform::Other).is_empty());
    assert_eq!(p.get_invoke_command(&input()), "build/out/rinoldm/sbfi/sbfi /w/benches/hanoi.bf");
    assert_eq!(
        p.filter_output("`build/out/rinoldm/sbfi/sbfi f`".to_string()),
        "[rinoldm/sbfi](https://github.com/rinoldm/sbfi)"
    );
}

#[test]
fn wilfred_bfc() {
    let p = WilfredBfcBfImpl;
    assert_eq!(p.name(), "wilfried/bfc");
    assert!(!p.interpreted());
    assert!(p.enabled(Platform::Other) && p.enabled(Platform::Windows));
    assert_eq!(p.artifact(), Artifact::Directory { path: "build/src/wilfred/bfc".to_string() });
    assert_eq!(
        p.get(Found::Nothing, Platform::Other),
        Ok(vec![run(
            "git",
            &["clone", "https://github.com/Wilfred/bfc.git", "build/src/wilfred/bfc"],
            None
        )])
    );
    assert_eq!(
        p.build(Platform::Other),
        vec![run("cargo", &["build", "--release"], Some("build/src/wilfred/bfc"))]
    );
    assert_eq!(
        p.prepare(&input(), Platform::Other),
        vec![
            mkdir("build/out/wilfred/bfc"),
            run(
                "../../../../build/src/wilfred/bfc/target/release/bfc",
                &["/w/benches/hanoi.bf"],
                Some("build/out/wilfred/bfc")
            ),
            Step::CopyFile {
                from: "build/out/wilfred/bfc/hanoi".to_string(),
                to: "build/out/wilfred_bfc.out".to_string(),
            },
            rmdir("build/out/wilfred/bfc"),
        ]
    );
    assert_eq!(p.get_invoke_command(&input()), "build/out/wilfred_bfc.out");
    assert_eq!(
        p.filter_output("| `build/out/wilfred_bfc.out` | 1 |".to_string()),
        "| [wilfried/bfc](https://github.com/Wilfred/bfc) | 1 |"
    );
    assert_eq!(
        p.filter_output("`build/out/wilfred_bfc.out f`".to_string()),
        "`build/out/wilfred_bfc.out f`"
    );
    assert_eq!(
        p.filter_output("`build/out/wilfred_bfcXout`".to_string()),
        "`build/out/wilfred_bfcXout`"
    );
}

#[test]
fn bfc_under_its_short_name() {
    let p = BfcBfImpl;
    assert_eq!(
        p.get(Found::Nothing),
        Ok(vec![run("git", &["clone", "https://github.com/Wilfred/bfc.git", "build/src/bfc/"], None)])
    );
    assert_eq!(p.get(Found::Other), Err(AcquireError::NotADirectory));
    assert_eq!(
        p.get(Found::Directory),
        Ok(vec![run("git", &["pull", "--ff-only", "origin", "master"], Some("build/src/bfc/"))])
    );
    assert_eq!(p.build(), vec![run("cargo", &["build", "--release"], Some("build/src/bfc"))]);
    assert_eq!(
        p.prepare(&input(), Platform::Other),
        vec![
            mkdir("build/out/bfc"),
            run(
                "../../../build/src/bfc/target/release/bfc",
                &["/w/benches/hanoi.bf"],
                Some("build/out/bfc")
            ),
            Step::CopyFile {
                from: "build/out/bfc/hanoi".to_string(),
                to: "build/out/bfc.out".to_string(),
            },
            rmdir("build/out/bfc"),
        ]
    );
    assert_eq!(p.get_invoke_command(&input()), "build/out/bfc.out");
    assert_eq!(
        p.filter_output("| `build/out/bfc.out` |".to_string()),
        "| [bfc](https://github.com/Wilfred/bfc) |"
    );
}

#[test]
fn the_roster_lists_every_implementation_once() {
    let all = roster();
    assert_eq!(all.len(), 12);
    assert_eq!(all[0], Implementation::AsumagicAshbf(AsumagicAshbfBfImpl));
    assert_eq!(
        all[8],
        Implementation::RdebathTritium(RdebathTritiumBfImpl(RdebathTritiumMode::DynASM))
    );
    assert_eq!(all[11], Implementation::WilfredBfc(WilfredBfcBfImpl));
    for (i, a) in all.iter().enumerate() {
        for (j, b) in all.iter().enumerate() {
            assert_eq!(a.name() == b.name(), i == j);
        }
    }
}

#[test]
fn the_roster_speaks_for_its_members() {
    let file = input();
    let wilfred = Implementation::WilfredBfc(WilfredBfcBfImpl);
    assert_eq!(wilfred.name(), WilfredBfcBfImpl.name());
    assert_eq!(wilfred.interpreted(), WilfredBfcBfImpl.interpreted());
    assert_eq!(wilfred.artifact(), WilfredBfcBfImpl.artifact());
    assert_eq!(
        wilfred.get(Found::Directory, Platform::Other),
        WilfredBfcBfImpl.get(Found::Directory, Platform::Other)
    );
    assert_eq!(wilfred.get(Found::Other, Platform::Other), Err(AcquireError::NotADirectory));
    assert_eq!(wilfred.build(Platform::Other), WilfredBfcBfImpl.build(Platform::Other));
    assert_eq!(
        wilfred.prepare(&file, Platform::Other),
        WilfredBfcBfImpl.prepare(&file, Platform::Other)
    );
    assert_eq!(wilfred.get_invoke_command(&file), WilfredBfcBfImpl.get_invoke_command(&file));
    let tritium = Implementation::RdebathTritium(RdebathTritiumBfImpl(RdebathTritiumMode::DynASM));
    assert!(!tritium.enabled(Platform::Windows));
    assert_eq!(
        tritium.filter_output("`build/src/rdebath/brainfuck/tritium/bfi.out -q f`".to_string()),
        "[rdebath/Brainfuck/tritium (DynASM JIT)](https://github.com/rdebath/Brainfuck/tree/master/tritium)"
    );
}

#[test]
fn no_command_of_the_roster_begins_another() {
    let file = input();
    let lines: Vec<String> = roster().iter().map(|p| p.get_invoke_command(&file)).collect();
    for (i, a) in lines.iter().enumerate() {
        for (j, b) in lines.iter().enumerate() {
            if i != j {
                assert!(!b.starts_with(a.as_str()), "{a} begins {b}");
            }
        }
    }
}

#[test]
fn a_checkout_refuses_what_is_no_directory() {
    for p in roster() {
        let refused = p.get(Found::Other, Platform::Other);
        match p.artifact() {
            Artifact::Directory { .. } => assert_eq!(refused, Err(AcquireError::NotADirectory)),
            Artifact::File { .. } => assert!(refused.is_ok()),
        }
        assert!(p.get(Found::Nothing, Platform::Other).is_ok());
        assert!(p.get(Found::Directory, Platform::Other).is_ok());
    }
}

#[test]
fn preparing_a_compiler_leaves_only_the_executable() {
    let file = input();
    for p in roster() {
        for platform in [Platform::Other, Platform::Windows] {
            let plan = p.prepare(&file, platform);
            if p.interpreted() {
                assert!(plan.is_empty());
                continue;
            }
            let scratch = match &plan[0] {
                Step::CreateDirAll { path } => path.clone(),
                other => panic!("{other:?}"),
            };
            assert_eq!(plan[plan.len() - 1], Step::RemoveDirAll { path: scratch.clone() });
            let separator = if platform == Platform::Windows { '\\' } else { '/' };
            let copies: Vec<&Step> =
                plan.iter().filter(|s| matches!(s, Step::CopyFile { .. })).collect();
            match copies[copies.len() - 1] {
                Step::CopyFile { from, to } => {
                    assert!(from.starts_with(&format!("{scratch}{separator}")));
                    assert!(!to.starts_with(&format!("{scratch}{separator}")));
                    let executable = to.strip_suffix(".exe").unwrap_or(to);
                    assert!(p.get_invoke_command(&file).starts_with(executable));
                }
                other => panic!("{other:?}"),
            }
        }
    }
}

#[test]
fn exact_spans_are_replaced_as_they_stand() {
    assert_eq!(
        replace_in_lines("A `x.y` B `x.yz` C\n`xzy` `x.y`".to_string(), "`x.y`", "[L](u)"),
        "A [L](u) B `x.yz` C\n`xzy` [L](u)"
    );
    assert_eq!(replace_in_lines("a\nb\n".to_string(), "`x`", "L"), "a\nb\n");
    assert_eq!(
        WilfredBfcBfImpl.filter_output(
            "A `build/out/wilfred_bfc.out` B `build/out/wilfred_bfc.outx` C".to_string()
        ),
        "A [wilfried/bfc](https://github.com/Wilfred/bfc) B `build/out/wilfred_bfc.outx` C"
    );
}

#[test]
fn labels_are_links_without_code_marks() {
    assert_eq!(
        RinoldmSbfiBfImpl
            .filter_output("| `build/out/rinoldm/sbfi/sbfi /w/benches/a.bf` | 1.0 |".to_string()),
        "| [rinoldm/sbfi](https://github.com/rinoldm/sbfi) | 1.0 |"
    );
    assert_eq!(
        CwfitzgeraldBfccBfImpl.filter_output(
            "`build/src/cwfitzgerald/bfcc/bfcc -i /b/a.bf`\n`build/src/cwfitzgerald/bfcc/bfcc -i /b/b.bf`"
                .to_string()
        ),
        "[cwfitzgerald/bfcc](https://github.com/cwfitzgerald/bfcc)\n[cwfitzgerald/bfcc](https://github.com/cwfitzgerald/bfcc)"
    );
    for path in ["/b/a.bf", "relative.bf", "with space.bf", "C:\\benches\\a.bf"] {
        let file = Benchmark { file_name: "a.bf".to_string(), path: path.to_string() };
        let line = GardrekStvmBfImpl.get_invoke_command(&file);
        assert_eq!(
            GardrekStvmBfImpl.filter_output(format!("`{line}`")),
            "[gardrek/stvm](https://github.com/gardrek/stvm)"
        );
    }
}
