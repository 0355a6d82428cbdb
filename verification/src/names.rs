//! Concrete byte values of the flag names of the command schema, needed to
//! tell flags apart in proofs about the registry.

use vstd::prelude::*;

verus! {

use vstd::string::StringSliceAdditionalSpecFns;

broadcast use vstd::string::group_string_axioms;

/// Evaluates every flag name of the registry to its byte sequence.
proof fn lemma_flag_bytes()
    ensures
        "account".spec_bytes() =~= seq![97u8, 99u8, 99u8, 111u8, 117u8, 110u8, 116u8],
        "accounts".spec_bytes() =~= seq![97u8, 99u8, 99u8, 111u8, 117u8, 110u8, 116u8, 115u8],
        "address".spec_bytes() =~= seq![97u8, 100u8, 100u8, 114u8, 101u8, 115u8, 115u8],
        "admin-private".spec_bytes() =~= seq![97u8, 100u8, 109u8, 105u8, 110u8, 45u8, 112u8, 114u8, 105u8, 118u8, 97u8, 116u8, 101u8],
        "chain-name".spec_bytes() =~= seq![99u8, 104u8, 97u8, 105u8, 110u8, 45u8, 110u8, 97u8, 109u8, 101u8],
        "contract".spec_bytes() =~= seq![99u8, 111u8, 110u8, 116u8, 114u8, 97u8, 99u8, 116u8],
        "contracts".spec_bytes() =~= seq![99u8, 111u8, 110u8, 116u8, 114u8, 97u8, 99u8, 116u8, 115u8],
        "function-hash".spec_bytes() =~= seq![102u8, 117u8, 110u8, 99u8, 116u8, 105u8, 111u8, 110u8, 45u8, 104u8, 97u8, 115u8, 104u8],
        "function-hashes".spec_bytes() =~= seq![102u8, 117u8, 110u8, 99u8, 116u8, 105u8, 111u8, 110u8, 45u8, 104u8, 97u8, 115u8, 104u8, 101u8, 115u8],
        "height".spec_bytes() =~= seq![104u8, 101u8, 105u8, 103u8, 104u8, 116u8],
        "name".spec_bytes() =~= seq![110u8, 97u8, 109u8, 101u8],
        "operator".spec_bytes() =~= seq![111u8, 112u8, 101u8, 114u8, 97u8, 116u8, 111u8, 114u8],
        "origin".spec_bytes() =~= seq![111u8, 114u8, 105u8, 103u8, 105u8, 110u8],
        "permission".spec_bytes() =~= seq![112u8, 101u8, 114u8, 109u8, 105u8, 115u8, 115u8, 105u8, 111u8, 110u8],
        "permissions".spec_bytes() =~= seq![112u8, 101u8, 114u8, 109u8, 105u8, 115u8, 115u8, 105u8, 111u8, 110u8, 115u8],
        "private-key".spec_bytes() =~= seq![112u8, 114u8, 105u8, 118u8, 97u8, 116u8, 101u8, 45u8, 107u8, 101u8, 121u8],
        "quota".spec_bytes() =~= seq![113u8, 117u8, 111u8, 116u8, 97u8],
        "quota-limit".spec_bytes() =~= seq![113u8, 117u8, 111u8, 116u8, 97u8, 45u8, 108u8, 105u8, 109u8, 105u8, 116u8],
        "stake".spec_bytes() =~= seq![115u8, 116u8, 97u8, 107u8, 101u8],
        "state".spec_bytes() =~= seq![115u8, 116u8, 97u8, 116u8, 101u8],
        "target".spec_bytes() =~= seq![116u8, 97u8, 114u8, 103u8, 101u8, 116u8],
        "tx-code".spec_bytes() =~= seq![116u8, 120u8, 45u8, 99u8, 111u8, 100u8, 101u8],
        "website".spec_bytes() =~= seq![119u8, 101u8, 98u8, 115u8, 105u8, 116u8, 101u8],
{
    reveal_strlit("account");
    assert(vstd::utf8::is_ascii_chars("account"@));
    vstd::utf8::is_ascii_chars_encode_utf8("account"@);
    reveal_strlit("accounts");
    assert(vstd::utf8::is_ascii_chars("accounts"@));
    vstd::utf8::is_ascii_chars_encode_utf8("accounts"@);
    reveal_strlit("address");
    assert(vstd::utf8::is_ascii_chars("address"@));
    vstd::utf8::is_ascii_chars_encode_utf8("address"@);
    reveal_strlit("admin-private");
    assert(vstd::utf8::is_ascii_chars("admin-private"@));
    vstd::utf8::is_ascii_chars_encode_utf8("admin-private"@);
    reveal_strlit("chain-name");
    assert(vstd::utf8::is_ascii_chars("chain-name"@));
    vstd::utf8::is_ascii_chars_encode_utf8("chain-name"@);
    reveal_strlit("contract");
    assert(vstd::utf8::is_ascii_chars("contract"@));
    vstd::utf8::is_ascii_chars_encode_utf8("contract"@);
    reveal_strlit("contracts");
    assert(vstd::utf8::is_ascii_chars("contracts"@));
    vstd::utf8::is_ascii_chars_encode_utf8("contracts"@);
    reveal_strlit("function-hash");
    assert(vstd::utf8::is_ascii_chars("function-hash"@));
    vstd::utf8::is_ascii_chars_encode_utf8("function-hash"@);
    reveal_strlit("function-hashes");
    assert(vstd::utf8::is_ascii_chars("function-hashes"@));
    vstd::utf8::is_ascii_chars_encode_utf8("function-hashes"@);
    reveal_strlit("height");
    assert(vstd::utf8::is_ascii_chars("height"@));
    vstd::utf8::is_ascii_chars_encode_utf8("height"@);
    reveal_strlit("name");
    assert(vstd::utf8::is_ascii_chars("name"@));
    vstd::utf8::is_ascii_chars_encode_utf8("name"@);
    reveal_strlit("operator");
    assert(vstd::utf8::is_ascii_chars("operator"@));
    vstd::utf8::is_ascii_chars_encode_utf8("operator"@);
    reveal_strlit("origin");
    assert(vstd::utf8::is_ascii_chars("origin"@));
    vstd::utf8::is_ascii_chars_encode_utf8("origin"@);
    reveal_strlit("permission");
    assert(vstd::utf8::is_ascii_chars("permission"@));
    vstd::utf8::is_ascii_chars_encode_utf8("permission"@);
    reveal_strlit("permissions");
    assert(vstd::utf8::is_ascii_chars("permissions"@));
    vstd::utf8::is_ascii_chars_encode_utf8("permissions"@);
    reveal_strlit("private-key");
    assert(vstd::utf8::is_ascii_chars("private-key"@));
    vstd::utf8::is_ascii_chars_encode_utf8("private-key"@);
    reveal_strlit("quota");
    assert(vstd::utf8::is_ascii_chars("quota"@));
    vstd::utf8::is_ascii_chars_encode_utf8("quota"@);
    reveal_strlit("quota-limit");
    assert(vstd::utf8::is_ascii_chars("quota-limit"@));
    vstd::utf8::is_ascii_chars_encode_utf8("quota-limit"@);
    reveal_strlit("stake");
    assert(vstd::utf8::is_ascii_chars("stake"@));
    vstd::utf8::is_ascii_chars_encode_utf8("stake"@);
    reveal_strlit("state");
    assert(vstd::utf8::is_ascii_chars("state"@));
    vstd::utf8::is_ascii_chars_encode_utf8("state"@);
    reveal_strlit("target");
    assert(vstd::utf8::is_ascii_chars("target"@));
    vstd::utf8::is_ascii_chars_encode_utf8("target"@);
    reveal_strlit("tx-code");
    assert(vstd::utf8::is_ascii_chars("tx-code"@));
    vstd::utf8::is_ascii_chars_encode_utf8("tx-code"@);
    reveal_strlit("website");
    assert(vstd::utf8::is_ascii_chars("website"@));
    vstd::utf8::is_ascii_chars_encode_utf8("website"@);
}

/// No other flag of the registry is spelled "height".
pub proof fn lemma_flags_differ_from_height()
    ensures
        "account".spec_bytes() != "height".spec_bytes(),
        "accounts".spec_bytes() != "height".spec_bytes(),
        "address".spec_bytes() != "height".spec_bytes(),
        "admin-private".spec_bytes() != "height".spec_bytes(),
        "chain-name".spec_bytes() != "height".spec_bytes(),
        "contract".spec_bytes() != "height".spec_bytes(),
        "contracts".spec_bytes() != "height".spec_bytes(),
        "function-hash".spec_bytes() != "height".spec_bytes(),
        "function-hashes".spec_bytes() != "height".spec_bytes(),
        "name".spec_bytes() != "height".spec_bytes(),
        "operator".spec_bytes() != "height".spec_bytes(),
        "origin".spec_bytes() != "height".spec_bytes(),
        "permission".spec_bytes() != "height".spec_bytes(),
        "permissions".spec_bytes() != "height".spec_bytes(),
        "private-key".spec_bytes() != "height".spec_bytes(),
        "quota".spec_bytes() != "height".spec_bytes(),
        "quota-limit".spec_bytes() != "height".spec_bytes(),
        "stake".spec_bytes() != "height".spec_bytes(),
        "state".spec_bytes() != "height".spec_bytes(),
        "target".spec_bytes() != "height".spec_bytes(),
        "tx-code".spec_bytes() != "height".spec_bytes(),
        "website".spec_bytes() != "height".spec_bytes(),
{
    lemma_flag_bytes();
    assert("account".spec_bytes() != "height".spec_bytes()) by {
        assert("account".spec_bytes().len() == 7);
        assert("height".spec_bytes().len() == 6);
    }
    assert("accounts".spec_bytes() != "height".spec_bytes()) by {
        assert("accounts".spec_bytes().len() == 8);
        assert("height".spec_bytes().len() == 6);
    }
    assert("address".spec_bytes() != "height".spec_bytes()) by {
        assert("address".spec_bytes().len() == 7);
        assert("height".spec_bytes().len() == 6);
    }
    assert("admin-private".spec_bytes() != "height".spec_bytes()) by {
        assert("admin-private".spec_bytes().len() == 13);
        assert("height".spec_bytes().len() == 6);
    }
    assert("chain-name".spec_bytes() != "height".spec_bytes()) by {
        assert("chain-name".spec_bytes().len() == 10);
        assert("height".spec_bytes().len() == 6);
    }
    assert("contract".spec_bytes() != "height".spec_bytes()) by {
        assert("contract".spec_bytes().len() == 8);
        assert("height".spec_bytes().len() == 6);
    }
    assert("contracts".spec_bytes() != "height".spec_bytes()) by {
        assert("contracts".spec_bytes().len() == 9);
        assert("height".spec_bytes().len() == 6);
    }
    assert("function-hash".spec_bytes() != "height".spec_bytes()) by {
        assert("function-hash".spec_bytes().len() == 13);
        assert("height".spec_bytes().len() == 6);
    }
    assert("function-hashes".spec_bytes() != "height".spec_bytes()) by {
        assert("function-hashes".spec_bytes().len() == 15);
        assert("height".spec_bytes().len() == 6);
    }
    assert("name".spec_bytes() != "height".spec_bytes()) by {
        assert("name".spec_bytes().len() == 4);
        assert("height".spec_bytes().len() == 6);
    }
    assert("operator".spec_bytes() != "height".spec_bytes()) by {
        assert("operator".spec_bytes().len() == 8);
        assert("height".spec_bytes().len() == 6);
    }
    assert("origin".spec_bytes() != "height".spec_bytes()) by {
        assert("origin".spec_bytes()[0] == 111u8);
        assert("height".spec_bytes()[0] == 104u8);
    }
    assert("permission".spec_bytes() != "height".spec_bytes()) by {
        assert("permission".spec_bytes().len() == 10);
        assert("height".spec_bytes().len() == 6);
    }
    assert("permissions".spec_bytes() != "height".spec_bytes()) by {
        assert("permissions".spec_bytes().len() == 11);
        assert("height".spec_bytes().len() == 6);
    }
    assert("private-key".spec_bytes() != "height".spec_bytes()) by {
        assert("private-key".spec_bytes().len() == 11);
        assert("height".spec_bytes().len() == 6);
    }
    assert("quota".spec_bytes() != "height".spec_bytes()) by {
        assert("quota".spec_bytes().len() == 5);
        assert("height".spec_bytes().len() == 6);
    }
    assert("quota-limit".spec_bytes() != "height".spec_bytes()) by {
        assert("quota-limit".spec_bytes().len() == 11);
        assert("height".spec_bytes().len() == 6);
    }
    assert("stake".spec_bytes() != "height".spec_bytes()) by {
        assert("stake".spec_bytes().len() == 5);
        assert("height".spec_bytes().len() == 6);
    }
    assert("state".spec_bytes() != "height".spec_bytes()) by {
        assert("state".spec_bytes().len() == 5);
        assert("height".spec_bytes().len() == 6);
    }
    assert("target".spec_bytes() != "height".spec_bytes()) by {
        assert("target".spec_bytes()[0] == 116u8);
        assert("height".spec_bytes()[0] == 104u8);
    }
    assert("tx-code".spec_bytes() != "height".spec_bytes()) by {
        assert("tx-code".spec_bytes().len() == 7);
        assert("height".spec_bytes().len() == 6);
    }
    assert("website".spec_bytes() != "height".spec_bytes()) by {
        assert("website".spec_bytes().len() == 7);
        assert("height".spec_bytes().len() == 6);
    }
}

} // verus!
