use vstd::prelude::*;
use x509_parser::prelude::FromDer;
use x509_parser::certificate::X509Certificate;
use x509_parser::error::X509Error;

verus! {

/// The encoded attribute type of a common name (2.5.4.3), without its DER
/// header: the bytes that `OID_X509_COMMON_NAME` holds.
pub open spec fn common_name_oid() -> Seq<u8> {
    seq![0x55u8, 0x04u8, 0x03u8]
}

#[verifier::external_type_specification]
#[verifier::external_body]
pub struct ExX509Error(X509Error);

/// One attribute of a certificate's subject: its type as the encoded object
/// identifier (without the DER header), and its value as text when the value
/// is of a string type.
pub struct SubjectAttribute {
    pub attr_type: Vec<u8>,
    pub value: Option<String>,
}

pub open spec fn attribute_view(a: SubjectAttribute) -> (Seq<u8>, Option<Seq<char>>) {
    (
        a.attr_type@,
        match a.value {
            Some(v) => Some(v@),
            None => None,
        },
    )
}

/// The subject attributes of the DER certificate `der`, in order, as
/// `x509-parser` reads them; `None` when it cannot parse the certificate.
pub uninterp spec fn der_subject_attributes(der: Seq<u8>) -> Option<Seq<(Seq<u8>, Option<Seq<char>>)>>;

/// Calls `x509_parser`'s `X509Certificate::from_der`, then lists
/// `subject().iter_attributes()`, each as `attr_type().as_bytes()` and
/// `as_str().ok()`. Trusted: the result depends on the bytes alone, and the
/// parse error is handed back as it came (converted with `X509Error::from`).
/// Attribute types are read with `Oid::from_der`, so they are never relative
/// identifiers, and two of them are equal exactly when their bytes are.
#[verifier::external_body]
fn subject_attributes(der: &[u8]) -> (res: Result<Vec<SubjectAttribute>, X509Error>)
    ensures
        match res {
            Ok(v) => der_subject_attributes(der@) == Some(v@.map_values(|a: SubjectAttribute| attribute_view(a))),
            Err(_) => der_subject_attributes(der@) is None,
        },
{
    match X509Certificate::from_der(der) {
        Ok((_, cert)) => Ok(cert.subject().iter_attributes().map(|attr| SubjectAttribute {
            attr_type: attr.attr_type().as_bytes().to_vec(),
            value: attr.as_str().ok().map(|s| s.to_string()),
        }).collect()),
        Err(e) => Err(X509Error::from(e)),
    }
}

/// A certificate that could not be read.
pub enum CertificateError {
    X509(X509Error),
}

/// The value of the first common name attribute, when it is text; `None`
/// when there is no common name attribute or the first one is not text.
pub open spec fn common_name_spec(attrs: Seq<(Seq<u8>, Option<Seq<char>>)>) -> Option<Seq<char>>
    decreases attrs.len(),
{
    if attrs.len() == 0 {
        None
    } else if attrs[0].0 == common_name_oid() {
        attrs[0].1
    } else {
        common_name_spec(attrs.drop_first())
    }
}

fn is_common_name_oid(oid: &Vec<u8>) -> (res: bool)
    ensures
        res == (oid@ == common_name_oid()),
{
    let res = oid.len() == 3 && oid[0] == 0x55u8 && oid[1] == 0x04u8 && oid[2] == 0x03u8;
    proof {
        if res {
            assert(oid@ =~= common_name_oid());
        }
    }
    res
}

/// The common name is the text of the first attribute whose encoded type is
/// `55 04 03` (2.5.4.3), whatever follows it; there is none when no attribute
/// has that type.
pub proof fn lemma_first_common_name(attrs: Seq<(Seq<u8>, Option<Seq<char>>)>, k: int)
    requires
        0 <= k < attrs.len(),
        attrs[k].0 == seq![0x55u8, 0x04u8, 0x03u8],
        forall|j: int| 0 <= j < k ==> (#[trigger] attrs[j]).0 != seq![0x55u8, 0x04u8, 0x03u8],
    ensures
        common_name_spec(attrs) == attrs[k].1,
    decreases k,
{
    if k > 0 {
        assert(attrs[0].0 != seq![0x55u8, 0x04u8, 0x03u8]);
        assert forall|j: int| 0 <= j < k - 1 implies (#[trigger] attrs.drop_first()[j]).0 != seq![
            0x55u8,
            0x04u8,
            0x03u8,
        ] by {
            assert(attrs.drop_first()[j] == attrs[j + 1]);
        }
        lemma_first_common_name(attrs.drop_first(), k - 1);
    }
}

/// Without an attribute of the common name type there is no common name.
pub proof fn lemma_no_common_name(attrs: Seq<(Seq<u8>, Option<Seq<char>>)>)
    requires
        forall|j: int| 0 <= j < attrs.len() ==> (#[trigger] attrs[j]).0 != seq![0x55u8, 0x04u8, 0x03u8],
    ensures
        common_name_spec(attrs) is None,
    decreases attrs.len(),
{
    if attrs.len() > 0 {
        assert(attrs[0].0 != seq![0x55u8, 0x04u8, 0x03u8]);
        assert forall|j: int| 0 <= j < attrs.drop_first().len() implies (#[trigger] attrs.drop_first()[j]).0
            != seq![0x55u8, 0x04u8, 0x03u8] by {
            assert(attrs.drop_first()[j] == attrs[j + 1]);
        }
        lemma_no_common_name(attrs.drop_first());
    }
}

/// The common name in the subject of the DER certificate `der`.
pub fn certificate_common_name(der: &[u8]) -> (res: Result<Option<String>, CertificateError>)
    ensures
        res is Ok <==> der_subject_attributes(der@) is Some,
        res matches Ok(name) ==> common_name_spec(der_subject_attributes(der@).unwrap()) == match name {
            Some(n) => Some(n@),
            None => None,
        },
{
    let attrs = match subject_attributes(der) {
        Ok(a) => a,
        Err(e) => {
            return Err(CertificateError::X509(e));
        },
    };
    let ghost views = attrs@.map_values(|a: SubjectAttribute| attribute_view(a));
    let mut i: usize = 0;
    proof {
        assert(views.skip(0) =~= views);
    }
    while i < attrs.len()
        invariant
            i <= attrs@.len(),
            views == attrs@.map_values(|a: SubjectAttribute| attribute_view(a)),
            der_subject_attributes(der@) == Some(views),
            common_name_spec(views) == common_name_spec(views.skip(i as int)),
        decreases attrs@.len() - i,
    {
        proof {
            assert(views.skip(i as int).drop_first() =~= views.skip(i + 1));
            assert(views.skip(i as int)[0] == attribute_view(attrs@[i as int]));
        }
        if is_common_name_oid(&attrs[i].attr_type) {
            let name = match &attrs[i].value {
                Some(v) => Some(v.clone()),
                None => None,
            };
            proof {
                assert(views.skip(i as int)[0].0 == common_name_oid());
                assert(common_name_spec(views) == views.skip(i as int)[0].1);
            }
            return Ok(name);
        }
        i = i + 1;
    }
    proof {
        assert(views.skip(i as int).len() == 0);
    }
    Ok(None)
}

/// The suffix of certificate file names.
pub open spec fn der_suffix() -> Seq<char> {
    seq!['.', 'd', 'e', 'r']
}

/// Whether a file name ends with `.der`.
pub fn is_der_file_name(name: &str) -> (res: bool)
    ensures
        res == (name@.len() >= 4 && name@.skip(name@.len() - 4) == der_suffix()),
{
    let n = name.unicode_len();
    if n < 4 {
        return false;
    }
    let res = name.get_char(n - 4) == '.' && name.get_char(n - 3) == 'd' && name.get_char(n - 2)
        == 'e' && name.get_char(n - 1) == 'r';
    proof {
        let t = name@.skip(n - 4);
        if res {
            assert(t =~= der_suffix());
        } else {
            if t == der_suffix() {
                assert(t[0] == name@[n - 4]);
                assert(t[1] == name@[n - 3]);
                assert(t[2] == name@[n - 2]);
                assert(t[3] == name@[n - 1]);
            }
        }
    }
    res
}

} // verus!
