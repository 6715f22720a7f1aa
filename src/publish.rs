//! Publication of built guests: the binary and its identifier files.
use vstd::prelude::*;
use vstd::string::*;
use crate::digest::{Digest, ImageIdKind};
use crate::error::BakeError;
use crate::layout::{
    artifact_base, elfs_dir, elfs_dir_of, file_name, file_name_of, file_stem_of, is_valid_file_name,
    path_with_ext, valid_file_name, with_ext,
};

verus! {

/// One binary produced by the guest builder.
pub struct BuiltGuest {
    /// Where the builder left the binary.
    pub path: String,
    /// The legacy image identifier; all zero when not applicable.
    pub image_id: Digest,
    /// The versioned image identifier.
    pub v2_image_id: ImageIdKind,
}

/// One file-system operation of a publication, in executable form.
pub enum FileOp {
    /// Create a directory and all its missing parents.
    CreateDirAll { path: String },
    /// Copy the file at `from` to `to`, replacing `to`.
    Copy { from: String, to: String },
    /// Replace the file at `path` by `bytes`.
    Write { path: String, bytes: Vec<u8> },
}

/// What a `FileOp` does, over plain values.
pub ghost enum FileAction {
    CreateDirAll(Seq<char>),
    Copy(Seq<char>, Seq<char>),
    Write(Seq<char>, Seq<u8>),
}

impl View for FileOp {
    type V = FileAction;

    open spec fn view(&self) -> FileAction {
        match self {
            FileOp::CreateDirAll { path } => FileAction::CreateDirAll(path@),
            FileOp::Copy { from, to } => FileAction::Copy(from@, to@),
            FileOp::Write { path, bytes } => FileAction::Write(path@, bytes@),
        }
    }
}

pub open spec fn ops_view(ops: Seq<FileOp>) -> Seq<FileAction> {
    ops.map_values(|o: FileOp| o@)
}

pub open spec fn elf_ext() -> Seq<char> {
    seq!['e', 'l', 'f']
}

pub open spec fn iid_ext() -> Seq<char> {
    seq!['i', 'i', 'd']
}

pub open spec fn uid_ext() -> Seq<char> {
    seq!['u', 'i', 'd']
}

pub open spec fn kid_ext() -> Seq<char> {
    seq!['k', 'i', 'd']
}

/// Where the binary of guest `g` of the package at `m` is published.
pub open spec fn elf_path(m: Seq<char>, g: BuiltGuest) -> Seq<char> {
    with_ext(artifact_base(m, g.path@), elf_ext())
}

pub open spec fn iid_path(m: Seq<char>, g: BuiltGuest) -> Seq<char> {
    with_ext(artifact_base(m, g.path@), iid_ext())
}

pub open spec fn uid_path(m: Seq<char>, g: BuiltGuest) -> Seq<char> {
    with_ext(artifact_base(m, g.path@), uid_ext())
}

pub open spec fn kid_path(m: Seq<char>, g: BuiltGuest) -> Seq<char> {
    with_ext(artifact_base(m, g.path@), kid_ext())
}

/// The write of the versioned identifier: `.uid` for user space, `.kid` for kernel space.
pub open spec fn v2_action(m: Seq<char>, g: BuiltGuest) -> FileAction {
    match g.v2_image_id {
        ImageIdKind::User(d) => FileAction::Write(uid_path(m, g), d.bytes@),
        ImageIdKind::Kernel(d) => FileAction::Write(kid_path(m, g), d.bytes@),
    }
}

/// The write of the legacy identifier, absent when it is the zero sentinel.
pub open spec fn legacy_actions(m: Seq<char>, g: BuiltGuest) -> Seq<FileAction> {
    if g.image_id.spec_is_zero() {
        seq![]
    } else {
        seq![FileAction::Write(iid_path(m, g), g.image_id.bytes@)]
    }
}

/// Everything that publishing guest `g` of the package with manifest `m` does, in order.
pub open spec fn publish_actions(m: Seq<char>, g: BuiltGuest) -> Seq<FileAction> {
    seq![FileAction::CreateDirAll(elfs_dir(m)), FileAction::Copy(g.path@, elf_path(m, g))]
        + legacy_actions(m, g) + seq![v2_action(m, g)]
}

/// A model of the files on disk: path to contents.
pub type Files = Map<Seq<char>, Seq<u8>>;

pub open spec fn apply_action(fs: Files, a: FileAction) -> Files {
    match a {
        FileAction::CreateDirAll(_) => fs,
        FileAction::Copy(from, to) => if fs.contains_key(from) {
            fs.insert(to, fs[from])
        } else {
            fs
        },
        FileAction::Write(p, b) => fs.insert(p, b),
    }
}

/// The files after the actions have run in order.
pub open spec fn apply_actions(fs: Files, acts: Seq<FileAction>) -> Files
    decreases acts.len(),
{
    if acts.len() == 0 {
        fs
    } else {
        apply_actions(apply_action(fs, acts[0]), acts.drop_first())
    }
}

/// The files after publishing guest `g` of the package at `m`, written out.
pub open spec fn published_files(fs: Files, m: Seq<char>, g: BuiltGuest) -> Files {
    let f1 = apply_action(fs, FileAction::Copy(g.path@, elf_path(m, g)));
    let f2 = if g.image_id.spec_is_zero() {
        f1
    } else {
        f1.insert(iid_path(m, g), g.image_id.bytes@)
    };
    apply_action(f2, v2_action(m, g))
}

proof fn lemma_apply_cons(fs: Files, a: FileAction, rest: Seq<FileAction>)
    ensures
        apply_actions(fs, seq![a] + rest) == apply_actions(apply_action(fs, a), rest),
{
    assert((seq![a] + rest).drop_first() =~= rest);
}

proof fn lemma_apply_one(fs: Files, a: FileAction)
    ensures
        apply_actions(fs, seq![a]) == apply_action(fs, a),
{
    lemma_apply_cons(fs, a, Seq::empty());
    assert(seq![a] + Seq::<FileAction>::empty() =~= seq![a]);
    assert(apply_actions(apply_action(fs, a), Seq::<FileAction>::empty()) == apply_action(fs, a));
}

/// Running the publication plan yields exactly `published_files`.
pub proof fn lemma_publish_files(fs: Files, m: Seq<char>, g: BuiltGuest)
    ensures
        apply_actions(fs, publish_actions(m, g)) == published_files(fs, m, g),
{
    let c = FileAction::CreateDirAll(elfs_dir(m));
    let cp = FileAction::Copy(g.path@, elf_path(m, g));
    let v = v2_action(m, g);
    let l = legacy_actions(m, g);
    assert(publish_actions(m, g) =~= seq![c] + (seq![cp] + (l + seq![v])));
    lemma_apply_cons(fs, c, seq![cp] + (l + seq![v]));
    let f1 = apply_action(fs, cp);
    lemma_apply_cons(fs, cp, l + seq![v]);
    if g.image_id.spec_is_zero() {
        assert(l + seq![v] =~= seq![v]);
        lemma_apply_one(f1, v);
    } else {
        let w = FileAction::Write(iid_path(m, g), g.image_id.bytes@);
        assert(l + seq![v] =~= seq![w] + seq![v]);
        lemma_apply_cons(f1, w, seq![v]);
        lemma_apply_one(apply_action(f1, w), v);
    }
}

/// Paths that differ in the first letter of their extension are different.
proof fn lemma_ext_differ(b: Seq<char>, e1: Seq<char>, e2: Seq<char>)
    requires
        e1.len() > 0,
        e2.len() > 0,
        e1[0] != e2[0],
    ensures
        with_ext(b, e1) != with_ext(b, e2),
{
    assert(with_ext(b, e1)[b.len() as int + 1] == e1[0]);
    assert(with_ext(b, e2)[b.len() as int + 1] == e2[0]);
}

/// The four artifact paths of a guest are pairwise different.
pub proof fn lemma_artifact_paths_distinct(m: Seq<char>, g: BuiltGuest)
    ensures
        elf_path(m, g) != iid_path(m, g),
        elf_path(m, g) != uid_path(m, g),
        elf_path(m, g) != kid_path(m, g),
        iid_path(m, g) != uid_path(m, g),
        iid_path(m, g) != kid_path(m, g),
        uid_path(m, g) != kid_path(m, g),
{
    let b = artifact_base(m, g.path@);
    lemma_ext_differ(b, elf_ext(), iid_ext());
    lemma_ext_differ(b, elf_ext(), uid_ext());
    lemma_ext_differ(b, elf_ext(), kid_ext());
    lemma_ext_differ(b, iid_ext(), uid_ext());
    lemma_ext_differ(b, iid_ext(), kid_ext());
    lemma_ext_differ(b, uid_ext(), kid_ext());
}

/// After publishing, `<base>.elf` holds exactly the bytes the builder produced.
pub proof fn lemma_elf_published(fs: Files, m: Seq<char>, g: BuiltGuest)
    requires
        fs.contains_key(g.path@),
    ensures
        apply_actions(fs, publish_actions(m, g)).contains_key(elf_path(m, g)),
        apply_actions(fs, publish_actions(m, g))[elf_path(m, g)] == fs[g.path@],
{
    lemma_publish_files(fs, m, g);
    lemma_artifact_paths_distinct(m, g);
}

/// `<base>.iid` is written, with the legacy digest's bytes, exactly when that digest
/// is not the zero sentinel; otherwise publishing leaves it as it was (absent if absent).
pub proof fn lemma_legacy_id_published(fs: Files, m: Seq<char>, g: BuiltGuest)
    ensures
        !g.image_id.spec_is_zero() ==> apply_actions(fs, publish_actions(m, g)).contains_key(
            iid_path(m, g),
        ) && apply_actions(fs, publish_actions(m, g))[iid_path(m, g)] == g.image_id.bytes@,
        g.image_id.spec_is_zero() ==> (apply_actions(fs, publish_actions(m, g)).contains_key(
            iid_path(m, g),
        ) <==> fs.contains_key(iid_path(m, g))),
        g.image_id.spec_is_zero() && fs.contains_key(iid_path(m, g)) ==> apply_actions(
            fs,
            publish_actions(m, g),
        )[iid_path(m, g)] == fs[iid_path(m, g)],
{
    lemma_publish_files(fs, m, g);
    lemma_artifact_paths_distinct(m, g);
}

/// The versioned identifier goes to `<base>.uid` for user space and `<base>.kid` for
/// kernel space, with the variant's digest bytes; the other file is left as it was,
/// so in a directory that held neither exactly one of them exists afterwards.
pub proof fn lemma_v2_id_published(fs: Files, m: Seq<char>, g: BuiltGuest)
    ensures
        ({
            let r = apply_actions(fs, publish_actions(m, g));
            match g.v2_image_id {
                ImageIdKind::User(d) => r.contains_key(uid_path(m, g)) && r[uid_path(m, g)]
                    == d.bytes@ && (r.contains_key(kid_path(m, g)) <==> fs.contains_key(
                    kid_path(m, g),
                )),
                ImageIdKind::Kernel(d) => r.contains_key(kid_path(m, g)) && r[kid_path(m, g)]
                    == d.bytes@ && (r.contains_key(uid_path(m, g)) <==> fs.contains_key(
                    uid_path(m, g),
                )),
            }
        }),
        !fs.contains_key(uid_path(m, g)) && !fs.contains_key(kid_path(m, g)) ==> (apply_actions(
            fs,
            publish_actions(m, g),
        ).contains_key(uid_path(m, g)) != apply_actions(fs, publish_actions(m, g)).contains_key(
            kid_path(m, g),
        )),
{
    lemma_publish_files(fs, m, g);
    lemma_artifact_paths_distinct(m, g);
}

/// Publishing twice with unchanged inputs leaves the same files as publishing once,
/// provided the builder's output is not itself one of the published paths.
pub proof fn lemma_publish_idempotent(fs: Files, m: Seq<char>, g: BuiltGuest)
    requires
        g.path@ != elf_path(m, g),
        g.path@ != iid_path(m, g),
        g.path@ != uid_path(m, g),
        g.path@ != kid_path(m, g),
    ensures
        apply_actions(apply_actions(fs, publish_actions(m, g)), publish_actions(m, g))
            == apply_actions(fs, publish_actions(m, g)),
{
    let r1 = apply_actions(fs, publish_actions(m, g));
    lemma_publish_files(fs, m, g);
    lemma_publish_files(r1, m, g);
    lemma_artifact_paths_distinct(m, g);
    assert(published_files(r1, m, g) =~= r1);
}

/// The path that an action writes, if any.
pub open spec fn written_path(a: FileAction) -> Option<Seq<char>> {
    match a {
        FileAction::CreateDirAll(_) => None,
        FileAction::Copy(_, to) => Some(to),
        FileAction::Write(p, _) => Some(p),
    }
}

/// Every file that publishing writes lies inside the package's own publish
/// directory, so packages never write into each other's directories.
pub proof fn lemma_writes_stay_in_elfs_dir(m: Seq<char>, g: BuiltGuest, i: int)
    requires
        0 <= i < publish_actions(m, g).len(),
        written_path(publish_actions(m, g)[i]) is Some,
    ensures
        ({
            let p = written_path(publish_actions(m, g)[i])->0;
            let d = elfs_dir(m) + seq!['/'];
            p.len() > d.len() && p.subrange(0, d.len() as int) == d
        }),
{
    let d = elfs_dir(m) + seq!['/'];
    let b = artifact_base(m, g.path@);
    assert(b.subrange(0, d.len() as int) =~= d);
    assert(with_ext(b, elf_ext()).subrange(0, d.len() as int) =~= d);
    assert(with_ext(b, iid_ext()).subrange(0, d.len() as int) =~= d);
    assert(with_ext(b, uid_ext()).subrange(0, d.len() as int) =~= d);
    assert(with_ext(b, kid_ext()).subrange(0, d.len() as int) =~= d);
}

/// The plan that publishes guest `g` of the package whose manifest is at `manifest`:
/// create the publish directory, copy the binary to `<base>.elf`, write the legacy
/// identifier to `<base>.iid` unless it is zero, and the versioned identifier to
/// `<base>.uid` or `<base>.kid`.
pub fn publish_guest(manifest: &str, g: &BuiltGuest) -> (r: Result<Vec<FileOp>, BakeError>)
    ensures
        r is Err <==> !valid_file_name(file_name(g.path@)),
        r is Err ==> (r->Err_0 is InvalidGuestPath && r->Err_0->InvalidGuestPath_0 == g.path),
        r is Ok ==> ops_view(r->Ok_0@) == publish_actions(manifest@, *g),
{
    let name = file_name_of(g.path.as_str());
    if !is_valid_file_name(name) {
        return Err(BakeError::InvalidGuestPath(g.path.clone()));
    }
    let dir = elfs_dir_of(manifest);
    let base = String::from_str(dir.as_str()).concat("/").concat(file_stem_of(name));
    proof {
        reveal_strlit("/");
        reveal_strlit("elf");
        reveal_strlit("iid");
        reveal_strlit("uid");
        reveal_strlit("kid");
        assert("elf"@ =~= elf_ext());
        assert("iid"@ =~= iid_ext());
        assert("uid"@ =~= uid_ext());
        assert("kid"@ =~= kid_ext());
    }
    assert(base@ == artifact_base(manifest@, g.path@));
    let mut ops: Vec<FileOp> = Vec::new();
    ops.push(FileOp::CreateDirAll { path: dir });
    ops.push(FileOp::Copy { from: g.path.clone(), to: path_with_ext(base.as_str(), "elf") });
    if !g.image_id.is_zero() {
        ops.push(
            FileOp::Write { path: path_with_ext(base.as_str(), "iid"), bytes: g.image_id.to_bytes() },
        );
    }
    match &g.v2_image_id {
        ImageIdKind::User(d) => {
            ops.push(FileOp::Write { path: path_with_ext(base.as_str(), "uid"), bytes: d.to_bytes() });
        },
        ImageIdKind::Kernel(d) => {
            ops.push(
                FileOp::Write { path: path_with_ext(base.as_str(), "kid"), bytes: d.to_bytes() },
            );
        },
    }
    assert(ops_view(ops@) =~= publish_actions(manifest@, *g)) by {
        if g.image_id.spec_is_zero() {
            assert(ops@.len() == 3);
        } else {
            assert(ops@.len() == 4);
        }
    }
    Ok(ops)
}

/// Whether every guest among the first `n` has a path ending in a file name.
pub open spec fn all_valid(gs: Seq<BuiltGuest>, n: int) -> bool {
    forall|i: int| 0 <= i < n ==> valid_file_name(file_name(#[trigger] gs[i].path@))
}

/// The publications of the first `n` guests, one after another.
pub open spec fn publish_all_actions(m: Seq<char>, gs: Seq<BuiltGuest>, n: int) -> Seq<FileAction>
    decreases n,
{
    if n <= 0 {
        seq![]
    } else {
        publish_all_actions(m, gs, n - 1) + publish_actions(m, gs[n - 1])
    }
}

/// The plan that publishes, in the builder's order, every guest built for the package
/// whose manifest is at `manifest`. It fails on the first guest whose path names no file.
pub fn publish_guests(manifest: &str, guests: &Vec<BuiltGuest>) -> (r: Result<Vec<FileOp>, BakeError>)
    ensures
        r is Ok <==> all_valid(guests@, guests@.len() as int),
        r is Ok ==> ops_view(r->Ok_0@) == publish_all_actions(manifest@, guests@, guests@.len() as int),
        r is Err ==> exists|i: int|
            0 <= i < guests@.len() && all_valid(guests@, i) && !valid_file_name(
                file_name(guests@[i].path@),
            ) && r->Err_0 == BakeError::InvalidGuestPath(guests@[i].path),
{
    let mut all: Vec<FileOp> = Vec::new();
    let mut i: usize = 0;
    while i < guests.len()
        invariant
            0 <= i <= guests@.len(),
            all_valid(guests@, i as int),
            ops_view(all@) == publish_all_actions(manifest@, guests@, i as int),
        decreases guests@.len() - i,
    {
        match publish_guest(manifest, &guests[i]) {
            Ok(mut ops) => {
                let ghost before = all@;
                let ghost added = ops@;
                all.append(&mut ops);
                assert(ops_view(all@) =~= ops_view(before) + ops_view(added));
            },
            Err(e) => {
                return Err(e);
            },
        }
        i = i + 1;
    }
    Ok(all)
}

} // verus!
