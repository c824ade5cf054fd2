use vstd::prelude::*;

use crate::class_loader::loader::ClassLoader;
use crate::errors::InternalError;
use crate::heap::{Heap, alloc_search, array_at, lemma_ref_of_record, lemma_ref_of_record_other, loader_defaults_ok, ref_of};
use crate::jvm::{JVM, StepError, push_value};
use crate::native_calls::{Native, pushed_outcome};
use crate::types::Type;
use crate::utils::str_texts;

verus! {

/// The system properties of the machine, key then value, given the Java home,
/// the user's home and working directory, the directory for temporary files
/// and the library path.
pub open spec fn vm_property_texts(
    java_home: Seq<char>,
    user_home: Seq<char>,
    user_dir: Seq<char>,
    tmp_dir: Seq<char>,
    java_library: Seq<char>,
) -> Seq<Seq<char>> {
    seq![
        "java.vm.version"@, "23"@,
        "java.class.version"@, "0.67"@,
        "java.home"@, java_home,
        "user.home"@, user_home,
        "user.dir"@, user_dir,
        "java.library.path"@, java_library,
        "user.name"@, "USERNAME"@,
        "java.io.tmpdir"@, tmp_dir,
        "native.encoding"@, "UTF-8"@,
        "file.encoding"@, "UTF-8"@,
        "os.name"@, "OSNAME"@,
        "os.arch"@, "OSARCH"@,
        "os.version"@, "OSVERSION"@,
        "file.separator"@, "/"@,
        "path.separator"@, ":"@,
        "line.separator"@, "\n"@,
        "sun.boot.library.path"@, java_home + "/lib"@,
        "sun.cpu.endian"@, "little"@,
        "sun.arch.data.model"@, "64"@,
        "sun.jnu.encoding"@, "UTF-8"@,
        "jdk.image.map.all"@, "true"@,
    ]
}

/// Whether building the system properties stops the machine: the heap has no
/// room for their strings and their array.
pub open spec fn vm_properties_stops(hp: Heap, cs: Seq<(Seq<char>, crate::class_loader::class_file::ClassFileView)>) -> bool {
    !(1 <= hp.next_obj_ref && hp.next_obj_ref + 43 * (cs.len() + 2) <= u32::MAX && loader_defaults_ok(cs))
}

/// `SystemProps$Raw.vmProperties`, with the values that the host read from its
/// environment: an empty Java home is an error; else a new `String` array of
/// the property strings `texts` (each the one recorded for its text) is
/// pushed.
pub open spec fn vm_properties_outcome(
    s: Seq<crate::frame::FrameView>,
    hp: Heap,
    hp2: Heap,
    cs: Seq<(Seq<char>, crate::class_loader::class_file::ClassFileView)>,
    java_home: Seq<char>,
    texts: Seq<Seq<char>>,
    s2: Seq<crate::frame::FrameView>,
    r: Result<Native, StepError>,
) -> bool {
    if java_home.len() == 0 {
        s2 == s && hp2 == hp && r matches Err(StepError::Internal(InternalError::General(_)))
    } else if alloc_search(cs, "java/lang/String"@, cs.len() as nat) is Found || forall|j: int|
        0 <= j < texts.len() ==> #[trigger] ref_of(hp.strings@, texts[j]) is Some {
        let a = (hp2.next_obj_ref - 1) as u32;
        &&& array_at(hp2.heap@, a) matches Some(arr) && arr.elements@.len() == texts.len() && forall|j: int|
            0 <= j < texts.len() ==> (ref_of(hp2.strings@, #[trigger] texts[j]) matches Some(x)
                && arr.elements@[j] == Type::ObjectRef(x))
        &&& pushed_outcome(push_value(s, Type::ArrayRef(a)), s2, r)
    } else {
        s2 == s && r matches Err(StepError::Internal(_))
    }
}

impl JVM {
    /// `SystemProps$Raw.vmProperties`: the system properties, with the Java
    /// home, the user's home and working directory, the directory for
    /// temporary files and the library path that the host read from its
    /// environment.
    pub fn vm_properties(
        &mut self,
        heap: &mut Heap,
        loader: &ClassLoader,
        java_home: &str,
        user_home: &str,
        user_dir: &str,
        tmp_dir: &str,
        java_library: &str,
    ) -> (r: Result<Native, StepError>)
        requires
            !vm_properties_stops(*old(heap), loader.classes_view()),
        ensures
            vm_properties_outcome(
                old(self)@,
                *old(heap),
                *final(heap),
                loader.classes_view(),
                java_home@,
                vm_property_texts(java_home@, user_home@, user_dir@, tmp_dir@, java_library@),
                final(self)@,
                r,
            ),
            final(self).counter == old(self).counter,
    {
        if java_home.unicode_len() == 0 {
            return Err(StepError::Internal(InternalError::General("JHOME (JAVA HOME) cannot be empty ... plz set it using JHOME=/path/to/home".to_string())));
        }
        let mut boot = java_home.to_string();
        boot.append("/lib");
        let texts: Vec<&str> = vec![
            "java.vm.version", "23",
            "java.class.version", "0.67",
            "java.home", java_home,
            "user.home", user_home,
            "user.dir", user_dir,
            "java.library.path", java_library,
            "user.name", "USERNAME",
            "java.io.tmpdir", tmp_dir,
            "native.encoding", "UTF-8",
            "file.encoding", "UTF-8",
            "os.name", "OSNAME",
            "os.arch", "OSARCH",
            "os.version", "OSVERSION",
            "file.separator", "/",
            "path.separator", ":",
            "line.separator", "\n",
            "sun.boot.library.path", boot.as_str(),
            "sun.cpu.endian", "little",
            "sun.arch.data.model", "64",
            "sun.jnu.encoding", "UTF-8",
            "jdk.image.map.all", "true",
        ];
        let ghost want = vm_property_texts(java_home@, user_home@, user_dir@, tmp_dir@, java_library@);
        assert(str_texts(texts@) =~= want);
        let ghost h0 = *heap;
        proof {
            assert(loader.classes_view().len() == loader.classes@.len());
        }
        let mut elements: Vec<Type> = Vec::new();
        let mut k: usize = 0;
        while k < texts.len()
            invariant
                k <= texts@.len(),
                texts@.len() == 42,
                str_texts(texts@) == want,
                elements@.len() == k,
                1 <= h0.next_obj_ref,
                h0.next_obj_ref <= heap.next_obj_ref <= h0.next_obj_ref + k * (loader.classes@.len() + 2),
                h0.next_obj_ref + 43 * (loader.classes@.len() + 2) <= u32::MAX,
                loader_defaults_ok(loader.classes_view()),
                forall|j: int|
                    0 <= j < k ==> (ref_of(heap.strings@, #[trigger] want[j]) matches Some(x) && elements@[j]
                        == Type::ObjectRef(x)),
                !(alloc_search(loader.classes_view(), "java/lang/String"@, loader.classes_view().len() as nat) is Found)
                    ==> heap.strings == h0.strings && forall|j: int| 0 <= j < k ==> #[trigger] ref_of(h0.strings@, want[j]) is Some,
                loader.classes_view().len() == loader.classes@.len(),
                h0 == *old(heap),
                java_home@.len() != 0,
                want == vm_property_texts(java_home@, user_home@, user_dir@, tmp_dir@, java_library@),
                self@ == old(self)@,
                self.counter == old(self).counter,
            decreases texts@.len() - k,
        {
            assert(texts@[k as int]@ == want[k as int]);
            assert(heap.next_obj_ref + loader.classes@.len() + 2 <= u32::MAX) by (nonlinear_arith)
                requires
                    heap.next_obj_ref <= h0.next_obj_ref + k * (loader.classes@.len() + 2),
                    h0.next_obj_ref + 43 * (loader.classes@.len() + 2) <= u32::MAX,
                    k < 42,
            ;
            let ghost n0 = heap.next_obj_ref;
            let ghost before = heap.strings@;
            let s = match heap.alloc_string(loader, texts[k]) {
                Ok(s) => s,
                Err(e) => {
                    proof {
                        assert(ref_of(before, want[k as int]) is None);
                        assert(!(alloc_search(loader.classes_view(), "java/lang/String"@, loader.classes_view().len() as nat) is Found));
                        assert(ref_of(h0.strings@, want[k as int]) is None);
                        assert(!(forall|j: int| 0 <= j < want.len() ==> #[trigger] ref_of(h0.strings@, want[j]) is Some));
                    }
                    return Err(StepError::Internal(e));
                },
            };
            proof {
                assert forall|j: int| 0 <= j < k implies ref_of(heap.strings@, #[trigger] want[j]) == ref_of(before, want[j]) by {
                    if ref_of(before, want[k as int]) is None && want[j] != want[k as int] {
                        lemma_ref_of_record_other(before, want[k as int], want[j], (s->ObjectRef_0));
                    }
                }
                if ref_of(before, want[k as int]) is None {
                    lemma_ref_of_record(before, want[k as int], s->ObjectRef_0);
                }
            }
            assert(heap.next_obj_ref <= h0.next_obj_ref + (k + 1) * (loader.classes@.len() + 2)) by (nonlinear_arith)
                requires
                    n0 <= h0.next_obj_ref + k * (loader.classes@.len() + 2),
                    heap.next_obj_ref <= n0 + loader.classes@.len() + 2,
            ;
            elements.push(s);
            k = k + 1;
        }
        let n = elements.len();
        proof {
            reveal_strlit("java/lang/String");
            assert("java/lang/String"@[4] == '/');
            assert("java/lang/String"@.contains('/'));
        }
        let array = match heap.alloc_array("java/lang/String", elements, n) {
            Ok(a) => a,
            Err(e) => {
                return Err(StepError::Internal(e));
            },
        };
        self.push_stack(array)?;
        Ok(Native::Done)
    }
}

} // verus!
