//! Where the image of a replica version is to be had, and how nodes spread
//! over its mirrors.

use crate::registry::Registry;
use crate::types::UpgradeError;
use vstd::prelude::*;

verus! {

/// The exclusive-or of all of `bytes`; zero for none.
pub open spec fn xor_fold(bytes: Seq<u8>) -> u8
    decreases bytes.len(),
{
    if bytes.len() == 0 {
        0
    } else {
        xor_fold(bytes.drop_last()) ^ bytes.last()
    }
}

/// A number that depends on the node's identity alone, by which nodes that
/// fetch one image spread over its mirrors.
pub fn load_balance_number(identity: &[u8]) -> (r: usize)
    ensures
        r == xor_fold(identity@),
{
    let mut acc: u8 = 0;
    let mut i: usize = 0;
    while i < identity.len()
        invariant
            i <= identity.len(),
            acc == xor_fold(identity@.take(i as int)),
        decreases identity.len() - i,
    {
        proof {
            assert(identity@.take(i + 1).drop_last() =~= identity@.take(i as int));
        }
        acc = acc ^ identity[i];
        i += 1;
    }
    proof {
        assert(identity@.take(identity@.len() as int) =~= identity@);
    }
    acc as usize
}

/// The candidate download URLs of `replica_version` and the checksum of its
/// image, as the registry has them at its latest version. The single URL of
/// older records is added behind the others, also where it repeats one of them.
pub fn get_release_package_urls_and_hash(registry: &Registry, replica_version: &String) -> (r:
    Result<(Vec<String>, Option<String>), UpgradeError>)
    ensures
        match registry.release_record_at(replica_version@, registry.latest_version) {
            Some(record) => r is Ok && r.unwrap().0@ == record.release_package_urls@.push(
                record.release_package_url,
            ) && r.unwrap().1 == Some(record.release_package_sha256_hex),
            None => r == Err::<(Vec<String>, Option<String>), UpgradeError>(
                UpgradeError::RegistryRead,
            ),
        },
{
    match registry.find_release(replica_version, registry.get_latest_version()) {
        Some(at) => {
            let record = &registry.releases[at];
            let mut urls: Vec<String> = Vec::new();
            let mut i: usize = 0;
            while i < record.release_package_urls.len()
                invariant
                    i <= record.release_package_urls.len(),
                    urls@ == record.release_package_urls@.take(i as int),
                decreases record.release_package_urls.len() - i,
            {
                urls.push(record.release_package_urls[i].clone());
                proof {
                    assert(record.release_package_urls@.take(i + 1)
                        =~= record.release_package_urls@.take(i as int).push(
                        record.release_package_urls@[i as int],
                    ));
                }
                i += 1;
            }
            proof {
                assert(record.release_package_urls@.take(record.release_package_urls@.len() as int)
                    =~= record.release_package_urls@);
            }
            urls.push(record.release_package_url.clone());
            Ok((urls, Some(record.release_package_sha256_hex.clone())))
        },
        None => Err(UpgradeError::RegistryRead),
    }
}

} // verus!
