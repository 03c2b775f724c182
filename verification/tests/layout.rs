//! Platform configuration: disjoint regions, rejection, and the guest model.

use ceno_pipeline::codec::SerializedStream;
use ceno_pipeline::fib::fib;
use ceno_pipeline::guest::{run_guest, GUEST_OVERHEAD_CYCLES};
use ceno_pipeline::platform::{configure, ConfigError, LoadError, Preset, Program, Region};
use ceno_pipeline::workspace::{choose_workspace_root, first_marked, RootSource};

fn overlaps(a: &Region, b: &Region) -> bool {
    a.start < b.start + b.size && b.start < a.start + a.size
}

#[test]
fn regions_disjoint_and_in_bounds() {
    let program = Program::new(0x4000, u32::MAX).unwrap();
    let platform = configure(Preset::Ceno, &program, 4096, 8192, 512).unwrap();
    assert!(!overlaps(&platform.stack, &platform.heap));
    assert!(!overlaps(&platform.stack, &platform.pub_io));
    assert!(!overlaps(&platform.heap, &platform.pub_io));
    for r in [&platform.stack, &platform.heap, &platform.pub_io] {
        assert!(r.size > 0);
        assert!(r.start + r.size <= u32::MAX as u64 + 1);
    }
    assert_eq!(platform.entry, 0x4000);
    assert_eq!(platform.preset, Preset::Ceno);
}

#[test]
fn zero_sized_region_is_rejected() {
    let program = Program::new(0, u32::MAX).unwrap();
    for (s, h, p) in [(0u32, 1u32, 1u32), (1, 0, 1), (1, 1, 0)] {
        assert_eq!(
            configure(Preset::Ceno, &program, s, h, p),
            Err(ConfigError::EmptyRegion)
        );
    }
}

#[test]
fn oversized_layout_is_rejected_not_clipped() {
    // A small address space cannot hold two large regions.
    let program = Program::new(0, 0x0010_0000).unwrap();
    assert_eq!(
        configure(Preset::Ceno, &program, 0x0010_0000, 0x0010_0000, 512),
        Err(ConfigError::AddressSpaceExceeded)
    );
    // The same sizes fit a big address space.
    let roomy = Program::new(0, u32::MAX).unwrap();
    assert!(configure(Preset::Ceno, &roomy, 0x0010_0000, 0x0010_0000, 512).is_ok());
}

#[test]
fn entry_outside_address_space_is_rejected() {
    assert_eq!(Program::new(11, 10), Err(LoadError::EntryOutOfRange));
    assert!(Program::new(10, 10).is_ok());
}

#[test]
fn guest_reads_hint_and_commits_statement() {
    let mut hints = SerializedStream::new(16);
    hints.write_u32(10).unwrap();
    let run = run_guest(&hints);
    assert_eq!(run.hint, 10);
    assert_eq!(run.committed, vec![10, 55]);
    assert_eq!(run.cycles, 10 + GUEST_OVERHEAD_CYCLES);
}

#[test]
fn fib_reference_values() {
    assert_eq!(fib(0), 0);
    assert_eq!(fib(1), 1);
    assert_eq!(fib(2), 1);
    assert_eq!(fib(10), 55);
    // Every value is reduced by the modulus.
    assert!(fib(10000) < 7919);
}

#[test]
fn workspace_root_priority_order() {
    let pick = |e: Option<&str>, m: Option<&str>, x: Option<&str>| {
        choose_workspace_root(
            e.map(String::from),
            m.map(String::from),
            x.map(String::from),
            String::from("cwd"),
        )
    };
    let (root, src) = pick(Some("env"), Some("meta"), Some("exe"));
    assert_eq!((root.as_str(), src), ("env", RootSource::EnvOverride));
    let (root, src) = pick(None, Some("meta"), Some("exe"));
    assert_eq!((root.as_str(), src), ("meta", RootSource::BuildMetadata));
    let (root, src) = pick(None, None, Some("exe"));
    assert_eq!((root.as_str(), src), ("exe", RootSource::ExecutableWalk));
    let (root, src) = pick(None, None, None);
    assert_eq!((root.as_str(), src), ("cwd", RootSource::CurrentDir));
}

#[test]
fn first_marker_wins_the_walk() {
    assert_eq!(first_marked(&vec![false, true, true]), Some(1));
    assert_eq!(first_marked(&vec![true]), Some(0));
    assert_eq!(first_marked(&vec![false, false]), None);
    assert_eq!(first_marked(&vec![]), None);
}
