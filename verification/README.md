# Base block prover

Stateless proving of Base L2 blocks, verified with Verus.

`prove_block` takes a block witness: public inputs (parent block hash, block
number, claimed block hash), the RLP parent header, the payload attributes, and
the preimages that execution needs. It answers with a block output only if the
parent header hashes to the public parent hash, the block number is the next
one, there are transactions, and re-execution produces the claimed block hash.
The block executor is an argument of `prove_block`. It is asked only about
witnesses that pass the checks before execution, and what is proved holds for
every executor that accepts those requests. It reports the block's header field
by field; the prover encodes and hashes that header itself, so the block hash and
the output's block number and roots come from one header.

    src/types.rs          inputs and outputs of the prover
    src/hash.rs           Keccak-256, SHA-256, comparison of hashes
    src/header.rs         block headers: decoding, encoding and sealing
    src/provider.rs       preimages of a witness, found by their hash
    src/prover.rs         the prover, its errors, and the laws it obeys
    src/qos.rs            QOS manifest types and the manifest builder
    src/fake_manifest.rs  a placeholder manifest envelope for local testing
    src/text.rs           text forms of hashes and numbers
    app/                  JSON formats, error traits, Base's executor
    tests/                tests of the library

`app/executor.rs` needs the crates of base/base (`base-proof-executor`,
`base-proof-mpt`, `base-common-evm`, `base-common-genesis`,
`base-common-rpc-types-engine`), which are not on crates.io.
