use vstd::prelude::*;
use crate::config::Config;
use crate::descriptor::SombraWindows;
use crate::host::{create_outcome, delete_outcome, lemma_create_outcome, lemma_delete_outcome, HostModel};

verus! {

/// Creating a service whose name is free, with a helper that resolves, and
/// then deleting it, both succeed, and the host's registry is as before: no
/// entry of that name is left.
pub proof fn lemma_create_then_delete(d: SombraWindows, config: Config, h: HostModel)
    requires
        !h.services.contains_key(d@.name),
        h.files.contains_key(config.helper_spec()),
    ensures
        ({
            let (created, h1) = create_outcome(d, config, h);
            let (deleted, h2) = delete_outcome(d, config, h1);
            &&& created is Ok
            &&& deleted is Ok
            &&& !h2.services.contains_key(d@.name)
            &&& h2.services == h.services
        }),
{
    lemma_create_outcome(d, config, h);
    let h1 = create_outcome(d, config, h).1;
    lemma_delete_outcome(d, config, h1);
    assert(h1.services.remove(d@.name) =~= h.services);
}

/// Of two descriptors with the same name, creating the second after the
/// first fails.
pub proof fn lemma_same_name_twice(d1: SombraWindows, d2: SombraWindows, config: Config, h: HostModel)
    requires
        d1@.name == d2@.name,
    ensures
        create_outcome(d2, config, create_outcome(d1, config, h).1).0 is Err,
{
    lemma_create_outcome(d1, config, h);
    lemma_create_outcome(d2, config, create_outcome(d1, config, h).1);
}

/// Two descriptors with distinct free names can both be created, one after
/// the other, and then both deleted, in either order; the registry ends as it
/// began.
pub proof fn lemma_distinct_names(d1: SombraWindows, d2: SombraWindows, config: Config, h: HostModel)
    requires
        d1@.name != d2@.name,
        !h.services.contains_key(d1@.name),
        !h.services.contains_key(d2@.name),
        h.files.contains_key(config.helper_spec()),
    ensures
        ({
            let (c1, h1) = create_outcome(d1, config, h);
            let (c2, h2) = create_outcome(d2, config, h1);
            let (x1, h3) = delete_outcome(d1, config, h2);
            let (x2, h4) = delete_outcome(d2, config, h3);
            let (y2, h5) = delete_outcome(d2, config, h2);
            let (y1, h6) = delete_outcome(d1, config, h5);
            &&& c1 is Ok && c2 is Ok
            &&& x1 is Ok && x2 is Ok && h4.services == h.services
            &&& y2 is Ok && y1 is Ok && h6.services == h.services
        }),
{
    lemma_create_outcome(d1, config, h);
    let h1 = create_outcome(d1, config, h).1;
    lemma_create_outcome(d2, config, h1);
    let h2 = create_outcome(d2, config, h1).1;
    lemma_delete_outcome(d1, config, h2);
    let h3 = delete_outcome(d1, config, h2).1;
    lemma_delete_outcome(d2, config, h3);
    lemma_delete_outcome(d2, config, h2);
    let h5 = delete_outcome(d2, config, h2).1;
    lemma_delete_outcome(d1, config, h5);
    assert(h3.services.remove(d2@.name) =~= h.services);
    assert(h5.services.remove(d1@.name) =~= h.services);
}

/// After creating a service and deleting it, deleting it again fails.
pub proof fn lemma_delete_twice(d: SombraWindows, config: Config, h: HostModel)
    ensures
        ({
            let h1 = create_outcome(d, config, h).1;
            let h2 = delete_outcome(d, config, h1).1;
            delete_outcome(d, config, h2).0 is Err
        }),
{
    lemma_create_outcome(d, config, h);
    let h1 = create_outcome(d, config, h).1;
    lemma_delete_outcome(d, config, h1);
    let h2 = delete_outcome(d, config, h1).1;
    lemma_delete_outcome(d, config, h2);
}

/// After creating a service and deleting it, creating it again succeeds,
/// provided the helper resolves.
pub proof fn lemma_recreate(d: SombraWindows, config: Config, h: HostModel)
    requires
        h.files.contains_key(config.helper_spec()),
    ensures
        ({
            let h1 = create_outcome(d, config, h).1;
            let h2 = delete_outcome(d, config, h1).1;
            create_outcome(d, config, h2).0 is Ok
        }),
{
    lemma_create_outcome(d, config, h);
    let h1 = create_outcome(d, config, h).1;
    lemma_delete_outcome(d, config, h1);
    let h2 = delete_outcome(d, config, h1).1;
    lemma_create_outcome(d, config, h2);
}

} // verus!
