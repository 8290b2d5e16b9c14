//! What is hashed, and what selectors ask for.

use vstd::prelude::*;
use vstd::utf8::*;

use crate::content;
use crate::controller;
use crate::controller::keycloak;
use crate::controller::resources;
use crate::crd::HawkbitModel;
use crate::order;
use crate::outside;

verus! {

/// Joined pieces of which just one is different are different.
proof fn lemma_joined_differ(x: Seq<Seq<u8>>, y: Seq<Seq<u8>>, i: int)
    requires
        x.len() == y.len(),
        0 <= i < x.len(),
        forall|j: int| 0 <= j < x.len() && j != i ==> #[trigger] x[j] == y[j],
        x[i] != y[i],
    ensures
        x.flatten() != y.flatten(),
    decreases x.len(),
{
    let a = x.drop_first();
    let b = y.drop_first();
    if i == 0 {
        assert(a =~= b);
        if x.flatten() == y.flatten() {
            let n = x[0].len() as int;
            assert(x.flatten().len() == x[0].len() + a.flatten().len());
            assert(y.flatten().len() == y[0].len() + b.flatten().len());
            assert(x.flatten().take(n) =~= x[0]);
            assert(y.flatten().take(n) =~= y[0]);
        }
    } else {
        assert(a[i - 1] == x[i] && b[i - 1] == y[i]);
        assert forall|j: int| 0 <= j < a.len() && j != i - 1 implies #[trigger] a[j] == b[j] by {
            assert(x[j + 1] == y[j + 1]);
        }
        lemma_joined_differ(a, b, i - 1);
        if x.flatten() == y.flatten() {
            let n = x[0].len() as int;
            assert(x.flatten().skip(n) =~= a.flatten());
            assert(y.flatten().skip(n) =~= b.flatten());
        }
    }
}

/// Secret data in which just one value is different is hashed differently.
pub proof fn lemma_secret_change_is_noticed(
    before: Map<Seq<char>, Seq<u8>>,
    after: Map<Seq<char>, Seq<u8>>,
    key: Seq<char>,
)
    requires
        before.dom().finite(),
        before.dom() == after.dom(),
        before.contains_key(key),
        before[key] != after[key],
        forall|k: Seq<char>| before.contains_key(k) && k != key ==> #[trigger] before[k] == after[k],
    ensures
        content::byte_content(Some(before)) != content::byte_content(Some(after)),
{
    let keys = order::in_order(before.dom());
    order::lemma_finite_in_order(before.dom());
    assert(before.dom().contains(key));
    let i = keys.index_of(key);
    let x = content::values(before);
    let y = content::values(after);
    assert forall|j: int| 0 <= j < x.len() && j != i implies #[trigger] x[j] == y[j] by {
        assert(keys.contains(keys[j]));
        order::lemma_text_irreflexive(key);
        assert(keys[i] == key);
        assert(keys[j] != key);
    }
    lemma_joined_differ(x, y, i);
}

/// Texts of which just one is different are hashed differently.
pub proof fn lemma_text_change_is_noticed(
    before: Map<Seq<char>, Seq<char>>,
    after: Map<Seq<char>, Seq<char>>,
    key: Seq<char>,
)
    requires
        before.dom().finite(),
        before.dom() == after.dom(),
        before.contains_key(key),
        before[key] != after[key],
        forall|k: Seq<char>| before.contains_key(k) && k != key ==> #[trigger] before[k] == after[k],
    ensures
        content::text_content(Some(before)) != content::text_content(Some(after)),
{
    let keys = order::in_order(before.dom());
    order::lemma_finite_in_order(before.dom());
    assert(before.dom().contains(key));
    let i = keys.index_of(key);
    let x = content::values(before).map_values(|text: Seq<char>| encode_utf8(text));
    let y = content::values(after).map_values(|text: Seq<char>| encode_utf8(text));
    assert forall|j: int| 0 <= j < x.len() && j != i implies #[trigger] x[j] == y[j] by {
        assert(keys.contains(keys[j]));
        order::lemma_text_irreflexive(key);
        assert(keys[i] == key);
        assert(keys[j] != key);
    }
    encode_utf8_decode_utf8(before[key]);
    encode_utf8_decode_utf8(after[key]);
    lemma_joined_differ(x, y, i);
}

/// How long pieces are together.
pub open spec fn total_length(pieces: Seq<Seq<u8>>) -> nat
    decreases pieces.len(),
{
    if pieces.len() == 0 {
        0
    } else {
        pieces[0].len() + total_length(pieces.drop_first())
    }
}

/// Joined pieces are as long as the pieces together.
proof fn lemma_joined_length(pieces: Seq<Seq<u8>>)
    ensures
        pieces.flatten().len() == total_length(pieces),
    decreases pieces.len(),
{
    if pieces.len() > 0 {
        lemma_joined_length(pieces.drop_first());
    }
}

/// Joined pieces of the same lengths are the same only if all of the pieces are.
proof fn lemma_same_lengths_differ(x: Seq<Seq<u8>>, y: Seq<Seq<u8>>, i: int)
    requires
        x.len() == y.len(),
        forall|j: int| 0 <= j < x.len() ==> #[trigger] x[j].len() == y[j].len(),
        0 <= i < x.len(),
        x[i] != y[i],
    ensures
        x.flatten() != y.flatten(),
    decreases x.len(),
{
    let a = x.drop_first();
    let b = y.drop_first();
    let n = x[0].len() as int;
    assert(x[0].len() == y[0].len());
    if i > 0 {
        assert forall|j: int| 0 <= j < a.len() implies #[trigger] a[j].len() == b[j].len() by {
            assert(x[j + 1].len() == y[j + 1].len());
        }
        assert(a[i - 1] == x[i] && b[i - 1] == y[i]);
        lemma_same_lengths_differ(a, b, i - 1);
    }
    if x.flatten() == y.flatten() {
        assert(x.flatten().take(n) =~= x[0]);
        assert(y.flatten().take(n) =~= y[0]);
        assert(x.flatten().skip(n) =~= a.flatten());
        assert(y.flatten().skip(n) =~= b.flatten());
    }
}

/// Secret data in which any number of values are different is hashed differently, if the values add up to
/// another length, or if each of them is as long as before.
pub proof fn lemma_secret_changes_are_noticed(before: Map<Seq<char>, Seq<u8>>, after: Map<Seq<char>, Seq<u8>>)
    requires
        before.dom().finite(),
        before.dom() == after.dom(),
        before != after,
        total_length(content::values(before)) != total_length(content::values(after)) || forall|k: Seq<char>|
            before.contains_key(k) ==> #[trigger] before[k].len() == after[k].len(),
    ensures
        content::byte_content(Some(before)) != content::byte_content(Some(after)),
{
    let x = content::values(before);
    let y = content::values(after);
    lemma_joined_length(x);
    lemma_joined_length(y);
    if total_length(x) == total_length(y) {
        let keys = order::in_order(before.dom());
        order::lemma_finite_in_order(before.dom());
        assert(!(before =~= after));
        let key = choose|k: Seq<char>| before.contains_key(k) && before[k] != after[k];
        assert(before.dom().contains(key));
        let i = keys.index_of(key);
        assert forall|j: int| 0 <= j < x.len() implies #[trigger] x[j].len() == y[j].len() by {
            assert(keys.contains(keys[j]));
            assert(before.dom().contains(keys[j]));
            assert(before[keys[j]].len() == after[keys[j]].len());
        }
        lemma_same_lengths_differ(x, y, i);
    }
}

/// Texts of which any number are different are hashed differently, if they add up to another length in
/// UTF-8, or if each of them is as long in UTF-8 as before.
pub proof fn lemma_text_changes_are_noticed(before: Map<Seq<char>, Seq<char>>, after: Map<Seq<char>, Seq<char>>)
    requires
        before.dom().finite(),
        before.dom() == after.dom(),
        before != after,
        total_length(encoded(before)) != total_length(encoded(after)) || forall|k: Seq<char>|
            before.contains_key(k) ==> encode_utf8(#[trigger] before[k]).len() == encode_utf8(after[k]).len(),
    ensures
        content::text_content(Some(before)) != content::text_content(Some(after)),
{
    let x = encoded(before);
    let y = encoded(after);
    lemma_joined_length(x);
    lemma_joined_length(y);
    if total_length(x) == total_length(y) {
        let keys = order::in_order(before.dom());
        order::lemma_finite_in_order(before.dom());
        assert(!(before =~= after));
        let key = choose|k: Seq<char>| before.contains_key(k) && before[k] != after[k];
        assert(before.dom().contains(key));
        let i = keys.index_of(key);
        assert forall|j: int| 0 <= j < x.len() implies #[trigger] x[j].len() == y[j].len() by {
            assert(keys.contains(keys[j]));
            assert(before.dom().contains(keys[j]));
            assert(encode_utf8(before[keys[j]]).len() == encode_utf8(after[keys[j]]).len());
        }
        encode_utf8_decode_utf8(before[key]);
        encode_utf8_decode_utf8(after[key]);
        lemma_same_lengths_differ(x, y, i);
    }
}

/// The texts of a map in UTF-8, in the order of their keys.
pub open spec fn encoded(map: Map<Seq<char>, Seq<char>>) -> Seq<Seq<u8>> {
    content::values(map).map_values(|text: Seq<char>| encode_utf8(text))
}

/// New credentials of the administrator, one or both of them, are kept. They change what the server's pods
/// are hashed by whenever the values of the secret, joined in the order of their keys, are different.
pub proof fn lemma_new_credentials_are_noticed(
    before: Map<Seq<char>, Seq<u8>>,
    after: Map<Seq<char>, Seq<u8>>,
    config: Seq<u8>,
    password: Seq<char>,
    other: Seq<char>,
)
    requires
        before.contains_key("adminUsername"@),
        before.contains_key("adminPassword"@),
        after.contains_key("adminUsername"@),
        after.contains_key("adminPassword"@),
        content::values(before).flatten() != content::values(after).flatten(),
    ensures
        resources::admin_data(Some(after), other) == Some(after),
        config + content::byte_content(resources::admin_data(Some(before), password)) != config
            + content::byte_content(resources::admin_data(Some(after), other)),
{
    let x = content::byte_content(Some(before));
    let y = content::byte_content(Some(after));
    let n = config.len() as int;
    assert((config + x).skip(n) =~= x);
    assert((config + y).skip(n) =~= y);
}

/// A new user together with a new password of the same lengths, or of lengths that add up differently,
/// changes what the server's pods are hashed by.
pub proof fn lemma_new_user_and_password_are_noticed(
    before: Map<Seq<char>, Seq<u8>>,
    user: Seq<u8>,
    secret: Seq<u8>,
    config: Seq<u8>,
    password: Seq<char>,
    other: Seq<char>,
)
    requires
        before.dom().finite(),
        before.contains_key("adminUsername"@),
        before.contains_key("adminPassword"@),
        user != before["adminUsername"@] || secret != before["adminPassword"@],
        (user.len() == before["adminUsername"@].len() && secret.len() == before["adminPassword"@].len())
            || total_length(content::values(before)) != total_length(
            content::values(before.insert("adminUsername"@, user).insert("adminPassword"@, secret)),
        ),
    ensures
        ({
            let after = before.insert("adminUsername"@, user).insert("adminPassword"@, secret);
            &&& resources::admin_data(Some(after), other) == Some(after)
            &&& config + content::byte_content(resources::admin_data(Some(before), password)) != config
                + content::byte_content(resources::admin_data(Some(after), other))
        }),
{
    reveal_strlit("adminUsername");
    reveal_strlit("adminPassword");
    assert("adminUsername"@[5] == 'U' && "adminPassword"@[5] == 'P');
    let after = before.insert("adminUsername"@, user).insert("adminPassword"@, secret);
    assert(after.dom() =~= before.dom());
    assert(after["adminUsername"@] == user && after["adminPassword"@] == secret);
    lemma_secret_changes_are_noticed(before, after);
    lemma_new_credentials_are_noticed(before, after, config, password, other);
}

/// Of two texts that begin alike, the one with the lower byte after that comes first.
proof fn lemma_before_at(a: Seq<u8>, b: Seq<u8>, n: int)
    requires
        0 <= n < a.len(),
        n < b.len(),
        forall|i: int| 0 <= i < n ==> #[trigger] a[i] == b[i],
        a[n] < b[n],
    ensures
        order::bytes_before(a, b),
    decreases n,
{
    if n > 0 {
        let x = a.drop_first();
        let y = b.drop_first();
        assert forall|i: int| 0 <= i < n - 1 implies #[trigger] x[i] == y[i] by {
            assert(a[i + 1] == b[i + 1]);
        }
        assert(a[0] == b[0]);
        lemma_before_at(x, y, n - 1);
    }
}

/// The labels come in the order of component, instance and name.
proof fn lemma_label_order()
    ensures
        order::text_before(controller::KUBERNETES_LABEL_COMPONENT@, controller::KUBERNETES_LABEL_INSTANCE@),
        order::text_before(controller::KUBERNETES_LABEL_INSTANCE@, controller::KUBERNETES_LABEL_NAME@),
        order::text_before(controller::KUBERNETES_LABEL_COMPONENT@, controller::KUBERNETES_LABEL_NAME@),
{
    let c = controller::KUBERNETES_LABEL_COMPONENT@;
    let i = controller::KUBERNETES_LABEL_INSTANCE@;
    let n = controller::KUBERNETES_LABEL_NAME@;
    reveal_strlit("app.kubernetes.io/name");
    reveal_strlit("app.kubernetes.io/instance");
    reveal_strlit("app.kubernetes.io/component");
    is_ascii_chars_encode_utf8(c);
    is_ascii_chars_encode_utf8(i);
    is_ascii_chars_encode_utf8(n);
    lemma_before_at(encode_utf8(c), encode_utf8(i), 18);
    lemma_before_at(encode_utf8(i), encode_utf8(n), 18);
    lemma_before_at(encode_utf8(c), encode_utf8(n), 18);
}

/// The Keycloak instance is asked for by all of its labels.
pub proof fn lemma_keycloak_selector(resource: HawkbitModel)
    ensures
        content::selector_text(keycloak::instance_labels(resource))
            == "app.kubernetes.io/component=sso,app.kubernetes.io/instance=keycloak-"@ + resource.name()
            + ",app.kubernetes.io/name=keycloak"@,
{
    let labels = keycloak::instance_labels(resource);
    controller::lemma_labels(resource, "keycloak"@, "sso"@);
    lemma_label_order();
    let keys = seq![
        controller::KUBERNETES_LABEL_COMPONENT@,
        controller::KUBERNETES_LABEL_INSTANCE@,
        controller::KUBERNETES_LABEL_NAME@,
    ];
    assert(order::lists(keys, labels.dom())) by {
        assert forall|k: Seq<char>| #[trigger] labels.dom().contains(k) <==> keys.contains(k) by {
            assert(keys[0] == controller::KUBERNETES_LABEL_COMPONENT@);
            assert(keys[1] == controller::KUBERNETES_LABEL_INSTANCE@);
            assert(keys[2] == controller::KUBERNETES_LABEL_NAME@);
        }
    }
    order::lemma_in_order(keys, labels.dom());
    let parts = keys.map_values(|k: Seq<char>| k + "="@ + labels[k]);
    reveal_with_fuel(outside::joined, 3);
    assert(parts.drop_last().drop_last()[0] == parts[0]);
    assert(content::selector_text(labels) =~= parts[0] + ","@ + parts[1] + ","@ + parts[2]);
    reveal_strlit("app.kubernetes.io/name");
    reveal_strlit("app.kubernetes.io/instance");
    reveal_strlit("app.kubernetes.io/component");
    reveal_strlit("app.kubernetes.io/component=sso,app.kubernetes.io/instance=keycloak-");
    reveal_strlit(",app.kubernetes.io/name=keycloak");
    reveal_strlit("keycloak");
    reveal_strlit("sso");
    reveal_strlit("=");
    reveal_strlit("-");
    reveal_strlit(",");
    assert(parts[0] + ","@ + controller::KUBERNETES_LABEL_INSTANCE@ + "="@ + "keycloak"@ + "-"@
        =~= "app.kubernetes.io/component=sso,app.kubernetes.io/instance=keycloak-"@);
    assert(","@ + parts[2] =~= ",app.kubernetes.io/name=keycloak"@);
    assert(content::selector_text(labels) =~= (parts[0] + ","@ + controller::KUBERNETES_LABEL_INSTANCE@ + "="@
        + "keycloak"@ + "-"@) + resource.name() + (","@ + parts[2]));
}

} // verus!
