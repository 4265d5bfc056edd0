//! What is kept on disk: the authority's certificate, which clients need as
//! their trust anchor, and the server's certificate and private key.
//!
//! The library names the files and says what each holds; the caller creates
//! the directory and writes them, over whatever was there. A directory is
//! modelled as a map from file names to contents, and writing as insertion,
//! so that writing twice leaves what was written last.

use crate::issuer::{CertificateAuthority, IssuedCertificate};
use vstd::prelude::*;
use vstd::string::StringExecFns;

verus! {

/// The directory that holds the files, relative to where the server runs.
pub const CERT_DIR: &'static str = "certs";

/// The file of the authority's certificate.
pub const CA_CERT_FILE: &'static str = "ca.crt";

/// The file of the server's certificate.
pub const SERVER_CERT_FILE: &'static str = "server.crt";

/// The file of the server's private key.
pub const SERVER_KEY_FILE: &'static str = "server.key";

/// One file to write: its name within the directory, and its contents.
#[derive(Debug)]
pub struct Artifact {
    pub file_name: &'static str,
    pub contents: String,
}

impl View for Artifact {
    type V = (Seq<char>, Seq<char>);

    open spec fn view(&self) -> (Seq<char>, Seq<char>) {
        (self.file_name@, self.contents@)
    }
}

/// The files of a directory, by name.
pub type Directory = Map<Seq<char>, Seq<char>>;

/// The three files, in the order in which they are written, for the given
/// PEM texts.
pub open spec fn plan(ca_certificate: Seq<char>, certificate: Seq<char>, private_key: Seq<char>)
    -> Seq<(Seq<char>, Seq<char>)> {
    seq![
        (CA_CERT_FILE@, ca_certificate),
        (SERVER_CERT_FILE@, certificate),
        (SERVER_KEY_FILE@, private_key),
    ]
}

/// The directory after the files of `plan` have been written in order, each
/// over what the directory held under its name.
pub open spec fn written(directory: Directory, plan: Seq<(Seq<char>, Seq<char>)>) -> Directory
    decreases plan.len(),
{
    if plan.len() == 0 {
        directory
    } else {
        written(directory, plan.drop_last()).insert(plan.last().0, plan.last().1)
    }
}

/// The names of the three files.
pub open spec fn file_names() -> Set<Seq<char>> {
    set![CA_CERT_FILE@, SERVER_CERT_FILE@, SERVER_KEY_FILE@]
}

/// The files to write for an authority and a server certificate: the
/// authority's certificate, the server's certificate, and the server's
/// private key. The authority's private key is not among them.
pub fn artifacts(ca: &CertificateAuthority, server: &IssuedCertificate) -> (files: Vec<Artifact>)
    ensures
        files@.map_values(|a: Artifact| a@) == plan(
            ca.own().certificate_text(),
            server.certificate_text(),
            server.private_key_text(),
        ),
{
    let mut files: Vec<Artifact> = Vec::new();
    files.push(
        Artifact {
            file_name: CA_CERT_FILE,
            contents: String::from_str(ca.issued().certificate_pem()),
        },
    );
    files.push(
        Artifact {
            file_name: SERVER_CERT_FILE,
            contents: String::from_str(server.certificate_pem()),
        },
    );
    files.push(
        Artifact {
            file_name: SERVER_KEY_FILE,
            contents: String::from_str(server.private_key_pem()),
        },
    );
    files
}

/// The three file names differ from each other.
pub proof fn lemma_file_names_differ()
    ensures
        CA_CERT_FILE@ != SERVER_CERT_FILE@,
        CA_CERT_FILE@ != SERVER_KEY_FILE@,
        SERVER_CERT_FILE@ != SERVER_KEY_FILE@,
{
    reveal_strlit("ca.crt");
    reveal_strlit("server.crt");
    reveal_strlit("server.key");
    assert(CA_CERT_FILE@.len() == 6);
    assert(SERVER_CERT_FILE@.len() == 10);
    assert(SERVER_KEY_FILE@.len() == 10);
    assert(SERVER_CERT_FILE@[7] == 'c');
    assert(SERVER_KEY_FILE@[7] == 'k');
}

/// After the files have been written, the directory holds each of the three
/// under its name with the contents given, and every other file as before.
pub proof fn lemma_written_holds_plan(
    directory: Directory,
    ca_certificate: Seq<char>,
    certificate: Seq<char>,
    private_key: Seq<char>,
)
    ensures
        ({
            let after = written(directory, plan(ca_certificate, certificate, private_key));
            &&& after.dom() == directory.dom().union(file_names())
            &&& after[CA_CERT_FILE@] == ca_certificate
            &&& after[SERVER_CERT_FILE@] == certificate
            &&& after[SERVER_KEY_FILE@] == private_key
            &&& forall|name: Seq<char>|
                directory.dom().contains(name) && !file_names().contains(name) ==> after[name]
                    == directory[name]
        }),
{
    lemma_file_names_differ();
    let three = plan(ca_certificate, certificate, private_key);
    let two = three.drop_last();
    let one = two.drop_last();
    assert(written(directory, one.drop_last()) == directory);
    assert(written(directory, one) == directory.insert(CA_CERT_FILE@, ca_certificate));
    assert(written(directory, two) == written(directory, one).insert(
        SERVER_CERT_FILE@,
        certificate,
    ));
    assert(written(directory, three) == written(directory, two).insert(
        SERVER_KEY_FILE@,
        private_key,
    ));
    assert(written(directory, three).dom() =~= directory.dom().union(file_names()));
}

/// The last writing wins: in any directory, writing one set of material and
/// then another leaves what writing the second alone would have left.
pub proof fn lemma_last_writing_wins(
    directory: Directory,
    first: (Seq<char>, Seq<char>, Seq<char>),
    second: (Seq<char>, Seq<char>, Seq<char>),
)
    ensures
        written(
            written(directory, plan(first.0, first.1, first.2)),
            plan(second.0, second.1, second.2),
        ) == written(directory, plan(second.0, second.1, second.2)),
{
    let once = written(directory, plan(first.0, first.1, first.2));
    let twice = written(once, plan(second.0, second.1, second.2));
    let fresh = written(directory, plan(second.0, second.1, second.2));
    lemma_written_holds_plan(directory, first.0, first.1, first.2);
    lemma_written_holds_plan(once, second.0, second.1, second.2);
    lemma_written_holds_plan(directory, second.0, second.1, second.2);
    assert(twice =~= fresh);
}

/// Writing twice into a directory that holds no other file leaves exactly
/// three files, each with the material of the second writing and none of the
/// first.
pub proof fn lemma_persist_twice(
    directory: Directory,
    first: (Seq<char>, Seq<char>, Seq<char>),
    second: (Seq<char>, Seq<char>, Seq<char>),
)
    requires
        directory.dom().subset_of(file_names()),
    ensures
        ({
            let once = written(directory, plan(first.0, first.1, first.2));
            let twice = written(once, plan(second.0, second.1, second.2));
            &&& twice.dom() == file_names()
            &&& twice.dom().finite()
            &&& twice.dom().len() == 3
            &&& twice[CA_CERT_FILE@] == second.0
            &&& twice[SERVER_CERT_FILE@] == second.1
            &&& twice[SERVER_KEY_FILE@] == second.2
        }),
{
    lemma_file_names_differ();
    let once = written(directory, plan(first.0, first.1, first.2));
    let twice = written(once, plan(second.0, second.1, second.2));
    lemma_written_holds_plan(directory, first.0, first.1, first.2);
    lemma_written_holds_plan(once, second.0, second.1, second.2);
    assert(twice.dom() =~= file_names());
}

} // verus!
