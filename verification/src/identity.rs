//! Provider identities, the kinds of backend they can name, and the names of
//! the credential records that stand for them on disk.

use vstd::prelude::*;
use vstd::std_specs::cmp::PartialEqSpecImpl;
use vstd::string::*;

verus! {

/// The kinds of backend the gateway knows how to drive.
#[derive(Debug, Copy, PartialEq, Eq, Structural)]
pub enum ProviderKind {
    /// A directory tree on the local disk.
    NativeFs,
    /// A bucket of an object store.
    S3,
    /// A Google Drive account.
    Google,
    /// A OneDrive account.
    OneDrive,
    /// A kind this version does not know.
    Unknown,
}

impl Clone for ProviderKind {
    fn clone(&self) -> (r: Self)
        ensures
            r == *self,
    {
        *self
    }
}

impl ProviderKind {
    /// Whether a backend of this kind is rebuilt from a credential record.
    /// The local disk needs none, and an unknown kind cannot be rebuilt.
    pub open spec fn spec_has_record(self) -> bool {
        self == ProviderKind::S3 || self == ProviderKind::Google || self == ProviderKind::OneDrive
    }

    #[verifier::when_used_as_spec(spec_has_record)]
    pub fn has_record(self) -> (r: bool)
        ensures
            r == self.spec_has_record(),
    {
        match self {
            ProviderKind::S3 | ProviderKind::Google | ProviderKind::OneDrive => true,
            ProviderKind::NativeFs | ProviderKind::Unknown => false,
        }
    }
}

/// The kind that a type name stands for. Names are case-sensitive.
pub open spec fn kind_of(provider_type: Seq<char>) -> ProviderKind {
    if provider_type == "S3"@ {
        ProviderKind::S3
    } else if provider_type == "Google"@ {
        ProviderKind::Google
    } else if provider_type == "OneDrive"@ {
        ProviderKind::OneDrive
    } else if provider_type == "native_fs"@ {
        ProviderKind::NativeFs
    } else {
        ProviderKind::Unknown
    }
}

/// The mathematical value of a [`ProviderId`].
pub struct Identity {
    pub id: Seq<char>,
    pub provider_type: Seq<char>,
}

/// The identity of the provider that serves the user's home directory. It is
/// always registered and has no credential record.
pub open spec fn native_identity() -> Identity {
    Identity { id: "My local files"@, provider_type: "native_fs"@ }
}

/// The name of the credential record of `p`: its id, a dot, its type name.
pub open spec fn record_name_of(p: Identity) -> Seq<char> {
    p.id + seq!['.'] + p.provider_type
}

/// `i` is where the first dot of `name` stands.
pub open spec fn first_dot_at(name: Seq<char>, i: int) -> bool {
    &&& 0 <= i < name.len()
    &&& name[i] == '.'
    &&& forall|j: int| 0 <= j < i ==> name[j] != '.'
}

/// The identity that a record's name stands for: what is before its first dot
/// is the id, what is behind it the type name. A name without a dot names
/// nothing.
pub open spec fn identity_of_record(name: Seq<char>) -> Option<Identity> {
    if exists|i: int| first_dot_at(name, i) {
        let i = choose|i: int| first_dot_at(name, i);
        Some(
            Identity {
                id: name.subrange(0, i),
                provider_type: name.subrange(i + 1, name.len() as int),
            },
        )
    } else {
        None
    }
}

/// A name has one first dot at most.
pub proof fn lemma_first_dot_unique(name: Seq<char>, i: int, j: int)
    requires
        first_dot_at(name, i),
        first_dot_at(name, j),
    ensures
        i == j,
{
    if i < j {
        assert(name[i] != '.');
    } else if j < i {
        assert(name[j] != '.');
    }
}

/// A record's name is read back as the identity it was made from, provided
/// the id holds no dot.
pub proof fn lemma_record_name_read_back(p: Identity)
    requires
        !p.id.contains('.'),
    ensures
        identity_of_record(record_name_of(p)) == Some(p),
{
    let name = record_name_of(p);
    let k = p.id.len() as int;
    assert forall|j: int| 0 <= j < k implies name[j] != '.' by {
        assert(name[j] == p.id[j]);
        assert(p.id.contains(p.id[j]));
    }
    assert(name[k] == '.');
    assert(first_dot_at(name, k));
    let i = choose|i: int| first_dot_at(name, i);
    lemma_first_dot_unique(name, i, k);
    assert(name.subrange(0, k) =~= p.id);
    assert(name.subrange(k + 1, name.len() as int) =~= p.provider_type);
}

/// Only one name is read as a given identity: the record name of that
/// identity. So no two records stand for one provider.
pub proof fn lemma_record_name_determined(name: Seq<char>, p: Identity)
    requires
        identity_of_record(name) == Some(p),
    ensures
        name == record_name_of(p),
        !p.id.contains('.'),
{
    let i = choose|i: int| first_dot_at(name, i);
    assert(first_dot_at(name, i));
    assert(name =~= name.subrange(0, i) + seq!['.'] + name.subrange(i + 1, name.len() as int));
    if p.id.contains('.') {
        let j = choose|j: int| 0 <= j < p.id.len() && p.id[j] == '.';
        assert(name[j] == '.');
    }
}

/// Whether `text` reads exactly as `literal`.
fn is_text(text: &String, literal: &str) -> (r: bool)
    ensures
        r == (text@ == literal@),
{
    *text == String::from_str(literal)
}

/// Names one registered backend: a free-form label and the backend's type
/// name. Two identities are the same when both fields are, to the letter.
#[derive(Debug, Hash)]
pub struct ProviderId {
    pub id: String,
    pub provider_type: String,
}

impl View for ProviderId {
    type V = Identity;

    open spec fn view(&self) -> Identity {
        Identity { id: self.id@, provider_type: self.provider_type@ }
    }
}

impl Clone for ProviderId {
    fn clone(&self) -> (r: Self)
        ensures
            r == *self,
    {
        ProviderId { id: self.id.clone(), provider_type: self.provider_type.clone() }
    }
}

impl PartialEq for ProviderId {
    fn eq(&self, other: &Self) -> (r: bool) {
        self.id == other.id && self.provider_type == other.provider_type
    }
}

impl Eq for ProviderId {

}

impl PartialEqSpecImpl for ProviderId {
    open spec fn obeys_eq_spec() -> bool {
        true
    }

    open spec fn eq_spec(&self, other: &Self) -> bool {
        self@ == other@
    }
}

impl ProviderId {
    /// The identity under which the user's home directory is registered.
    pub fn native() -> (r: ProviderId)
        ensures
            r@ == native_identity(),
    {
        ProviderId {
            id: String::from_str("My local files"),
            provider_type: String::from_str("native_fs"),
        }
    }

    /// Whether this is the identity of the home-directory provider.
    pub fn is_native(&self) -> (r: bool)
        ensures
            r == (self@ == native_identity()),
    {
        is_text(&self.id, "My local files") && is_text(&self.provider_type, "native_fs")
    }

    /// The kind of backend that the type name stands for.
    pub fn kind(&self) -> (k: ProviderKind)
        ensures
            k == kind_of(self.provider_type@),
    {
        if is_text(&self.provider_type, "S3") {
            ProviderKind::S3
        } else if is_text(&self.provider_type, "Google") {
            ProviderKind::Google
        } else if is_text(&self.provider_type, "OneDrive") {
            ProviderKind::OneDrive
        } else if is_text(&self.provider_type, "native_fs") {
            ProviderKind::NativeFs
        } else {
            ProviderKind::Unknown
        }
    }

    /// The name of the file that holds this provider's credentials.
    pub fn record_name(&self) -> (name: String)
        ensures
            name@ == record_name_of(self@),
    {
        proof {
            reveal_strlit(".");
            assert("."@ =~= seq!['.']);
        }
        self.id.clone().concat(".").concat(self.provider_type.as_str())
    }

    /// Where the credentials of this provider are kept, in the directory
    /// `data_dir`, whose name ends with the separator of paths.
    pub fn record_path(&self, data_dir: &str) -> (path: String)
        ensures
            path@ == data_dir@ + record_name_of(self@),
    {
        let name = self.record_name();
        String::from_str(data_dir).concat(name.as_str())
    }

    /// Reads a record's file name back into the identity it stands for.
    pub fn from_record_name(name: &str) -> (r: Option<ProviderId>)
        ensures
            r matches Some(p) ==> identity_of_record(name@) == Some(p@),
            r is None ==> identity_of_record(name@) is None,
    {
        let n: usize = name.unicode_len();
        let mut i: usize = 0;
        while i < n
            invariant
                i <= n,
                n == name@.len(),
                forall|j: int| 0 <= j < i ==> name@[j] != '.',
            decreases n - i,
        {
            if name.get_char(i) == '.' {
                let id = String::from_str(name.substring_char(0, i));
                let provider_type = String::from_str(name.substring_char(i + 1, n));
                proof {
                    assert(first_dot_at(name@, i as int));
                    let c = choose|c: int| first_dot_at(name@, c);
                    lemma_first_dot_unique(name@, c, i as int);
                }
                return Some(ProviderId { id, provider_type });
            }
            i += 1;
        }
        proof {
            assert forall|c: int| !first_dot_at(name@, c) by {
                if first_dot_at(name@, c) {
                    assert(name@[c] != '.');
                }
            }
        }
        None
    }
}

} // verus!
