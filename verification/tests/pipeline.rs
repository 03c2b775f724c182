//! End-to-end runs of the pipeline: configure, serialize, prove, verify.

use ceno_pipeline::codec::SerializedStream;
use ceno_pipeline::fib::fib;
use ceno_pipeline::platform::{
    configure, Platform, Preset, Program, DEFAULT_HEAP_SIZE, DEFAULT_PUB_IO_SIZE,
    DEFAULT_STACK_SIZE,
};
use ceno_pipeline::prover::{generate_proofs, CycleLimitExceeded, Proof, MAX_CYCLE_PER_SHARD};
use ceno_pipeline::verification::{verify, VerifyError};

fn reference_platform() -> (Program, Platform) {
    let program = Program::new(0x0002_0000, u32::MAX).unwrap();
    let platform = configure(
        Preset::Ceno,
        &program,
        DEFAULT_STACK_SIZE,
        DEFAULT_HEAP_SIZE,
        DEFAULT_PUB_IO_SIZE,
    )
    .unwrap();
    (program, platform)
}

fn streams_for(n: u32, expected: &[u32]) -> (SerializedStream, SerializedStream) {
    let mut hints = SerializedStream::new(64);
    hints.write_u32(n).unwrap();
    let mut pub_io = SerializedStream::new(DEFAULT_PUB_IO_SIZE as usize);
    pub_io.write_u32s(&expected.to_vec()).unwrap();
    (hints, pub_io)
}

#[test]
fn scenario_small_run_verifies() {
    let (program, platform) = reference_platform();
    let n = 10u32;
    let fib_n = fib(n);
    assert_eq!(fib_n, 55);
    let (hints, pub_io) = streams_for(n, &[n, fib_n]);
    let proofs = generate_proofs(
        &program,
        &platform,
        &hints,
        &pub_io,
        MAX_CYCLE_PER_SHARD,
        u64::MAX,
    )
    .unwrap();
    assert_eq!(proofs.len(), 1);
    assert_eq!(verify(&program, &platform, &proofs, &pub_io, u64::MAX), Ok(()));
}

#[test]
fn scenario_large_run_verifies() {
    let (program, platform) = reference_platform();
    let n = 10000u32;
    let fib_n = fib(n);
    let (hints, pub_io) = streams_for(n, &[n, fib_n]);
    let proofs = generate_proofs(
        &program,
        &platform,
        &hints,
        &pub_io,
        MAX_CYCLE_PER_SHARD,
        u64::MAX,
    )
    .unwrap();
    assert_eq!(proofs.len(), 1);
    assert_eq!(verify(&program, &platform, &proofs, &pub_io, u64::MAX), Ok(()));
}

#[test]
fn scenario_corrupt_statement_fails() {
    let (program, platform) = reference_platform();
    let n = 10u32;
    let fib_n = fib(n);
    let (hints, pub_io) = streams_for(n, &[n, fib_n]);
    let proofs = generate_proofs(
        &program,
        &platform,
        &hints,
        &pub_io,
        MAX_CYCLE_PER_SHARD,
        u64::MAX,
    )
    .unwrap();
    let (_, corrupted) = streams_for(n, &[n, fib_n + 1]);
    assert_eq!(
        verify(&program, &platform, &proofs, &corrupted, u64::MAX),
        Err(VerifyError::PublicIOMismatch)
    );
}

#[test]
fn scenario_cycle_limit_exceeded() {
    let (program, platform) = reference_platform();
    let n = 10u32;
    let fib_n = fib(n);
    let (hints, pub_io) = streams_for(n, &[n, fib_n]);
    // The run needs n + 3 = 13 cycles; a limit of 5 cannot cover it.
    let r = generate_proofs(&program, &platform, &hints, &pub_io, MAX_CYCLE_PER_SHARD, 5);
    assert_eq!(r, Err(CycleLimitExceeded));
}

#[test]
fn determinism_identical_runs_identical_artifacts() {
    let (program1, platform1) = reference_platform();
    let (program2, platform2) = reference_platform();
    assert_eq!(program1, program2);
    assert_eq!(platform1, platform2);
    let n = 321u32;
    let fib_n = fib(n);
    let (hints1, pub_io1) = streams_for(n, &[n, fib_n]);
    let (hints2, pub_io2) = streams_for(n, &[n, fib_n]);
    let proofs1 = generate_proofs(&program1, &platform1, &hints1, &pub_io1, 4, u64::MAX).unwrap();
    let proofs2 = generate_proofs(&program2, &platform2, &hints2, &pub_io2, 4, u64::MAX).unwrap();
    assert_eq!(proofs1, proofs2);
}

#[test]
fn multi_shard_partition_covers_trace() {
    let (program, platform) = reference_platform();
    let n = 10u32;
    let fib_n = fib(n);
    let (hints, pub_io) = streams_for(n, &[n, fib_n]);
    // 13 cycles under a bound of 4: shards of 4, 4, 4 and 1 cycle.
    let proofs = generate_proofs(&program, &platform, &hints, &pub_io, 4, u64::MAX).unwrap();
    assert_eq!(proofs.len(), 4);
    let mut covered = 0u64;
    for (i, p) in proofs.iter().enumerate() {
        assert_eq!(p.shard_index, i as u64);
        assert_eq!(p.start_cycle, covered);
        assert_eq!(p.total_cycles, 13);
        covered += p.num_cycles;
    }
    assert_eq!(covered, 13);
    assert_eq!(proofs[3].num_cycles, 1);
    assert_eq!(verify(&program, &platform, &proofs, &pub_io, u64::MAX), Ok(()));
}

#[test]
fn dropped_shard_fails_verification() {
    let (program, platform) = reference_platform();
    let n = 10u32;
    let fib_n = fib(n);
    let (hints, pub_io) = streams_for(n, &[n, fib_n]);
    let mut proofs = generate_proofs(&program, &platform, &hints, &pub_io, 4, u64::MAX).unwrap();
    proofs.remove(1);
    assert_eq!(
        verify(&program, &platform, &proofs, &pub_io, u64::MAX),
        Err(VerifyError::ProofGap)
    );
}

#[test]
fn dropped_last_shard_fails_verification() {
    let (program, platform) = reference_platform();
    let n = 10u32;
    let fib_n = fib(n);
    let (hints, pub_io) = streams_for(n, &[n, fib_n]);
    let mut proofs = generate_proofs(&program, &platform, &hints, &pub_io, 4, u64::MAX).unwrap();
    proofs.pop();
    assert_eq!(
        verify(&program, &platform, &proofs, &pub_io, u64::MAX),
        Err(VerifyError::ProofGap)
    );
}

#[test]
fn empty_proof_set_fails_verification() {
    let (program, platform) = reference_platform();
    let n = 7u32;
    let fib_n = fib(n);
    let (_, pub_io) = streams_for(n, &[n, fib_n]);
    let proofs: Vec<Proof> = Vec::new();
    assert_eq!(
        verify(&program, &platform, &proofs, &pub_io, u64::MAX),
        Err(VerifyError::ProofGap)
    );
}

#[test]
fn flipped_link_commitment_fails_verification() {
    let (program, platform) = reference_platform();
    let n = 10u32;
    let fib_n = fib(n);
    let (hints, pub_io) = streams_for(n, &[n, fib_n]);
    let mut proofs = generate_proofs(&program, &platform, &hints, &pub_io, 4, u64::MAX).unwrap();
    proofs[2].committed_io[4] ^= 1;
    assert_eq!(
        verify(&program, &platform, &proofs, &pub_io, u64::MAX),
        Err(VerifyError::PublicIOMismatch)
    );
}

#[test]
fn verify_cycle_overrun() {
    let (program, platform) = reference_platform();
    let n = 10u32;
    let fib_n = fib(n);
    let (hints, pub_io) = streams_for(n, &[n, fib_n]);
    let proofs =
        generate_proofs(&program, &platform, &hints, &pub_io, 4, u64::MAX).unwrap();
    // The chain commits 13 cycles; a verification bound of 12 is an overrun.
    assert_eq!(
        verify(&program, &platform, &proofs, &pub_io, 12),
        Err(VerifyError::CycleOverrun)
    );
    assert_eq!(verify(&program, &platform, &proofs, &pub_io, 13), Ok(()));
}

#[test]
fn shard_count_is_max_one_ceil() {
    let (program, platform) = reference_platform();
    let n = 10u32;
    let fib_n = fib(n);
    let cycles = 13u64;
    for bound in 1..=16u64 {
        let (hints, pub_io) = streams_for(n, &[n, fib_n]);
        let proofs =
            generate_proofs(&program, &platform, &hints, &pub_io, bound, u64::MAX).unwrap();
        let ceil = (cycles + bound - 1) / bound;
        assert_eq!(proofs.len() as u64, ceil.max(1));
    }
}
