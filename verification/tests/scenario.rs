use vault_rpg::errors::VaultError;
use vault_rpg::gate::{decide_gate, run_gate};
use vault_rpg::storage::{decrypt_mnemonic, encrypt_mnemonic};
use vault_rpg::vault::{list_names, name_of_file, Vault};

// The whole unlock path over an in-memory store: create a vault, pass a gate
// branch, decrypt with the right passphrase; a wrong passphrase yields an
// authentication failure and never a plaintext.
#[test]
fn end_to_end_create_gate_unlock() {
    let vault = Vault::new("demo");
    assert_eq!(vault.path, "secrets/vault_demo.enc");

    // Create: seal the mnemonic; the stored blob is the encoded envelope.
    let stored = encrypt_mnemonic("alpha beta gamma", "correct-horse").unwrap();

    // The repository would now list the new vault.
    let entries = vec![name_of_file("vault_demo.enc").map(|_| "vault_demo.enc".to_string()).unwrap()];
    assert_eq!(list_names(&entries), vec!["demo".to_string()]);

    // Unlock: the static-question branch must pass first.
    let gate = run_gate("2", "Beijing", None);
    assert!(gate.passed);

    let mnemonic = decrypt_mnemonic(stored.as_bytes(), "correct-horse").unwrap();
    assert_eq!(mnemonic, "alpha beta gamma");

    // A wrong passphrase, after a passed challenge, is an authentication failure:
    // no plaintext comes back.
    let gate = decide_gate("2", "Beijing", &None);
    assert!(gate.passed);
    let failure = decrypt_mnemonic(stored.as_bytes(), "wrong");
    assert_eq!(failure, Err(VaultError::AuthenticationError));

    // A failed gate forbids the decrypt attempt altogether.
    let gate = run_gate("2", "Shanghai", None);
    assert!(!gate.passed);
}
