//! The instance buffer: all instances of a draw, encoded back to back.
//!
//! The buffer is encoded anew from the whole instance list whenever the list
//! changes; nothing is patched in place.

use vstd::prelude::*;
use vstd::slice::slice_to_vec;
use crate::main_instance::{
    is_instance_layout, MainInstance, MainInstanceRaw, INSTANCE_STRIDE,
};
use crate::pod::{
    cast_words, lemma_words_round_trip, word_from_bytes, words_bytes, ByteOrder,
};
use crate::vertex::VertexBufferLayout;

verus! {

/// The words of an instance list: 18 for each instance, in list order.
pub open spec fn instance_words(instances: Seq<MainInstance>) -> Seq<u32> {
    Seq::new(
        18 * instances.len(),
        |i: int| instances[i / 18].spec_to_raw().words()[i % 18],
    )
}

/// The bytes of an encoded instance list on a host of the given byte order:
/// 72 for each instance, in list order, with nothing between the records.
pub open spec fn instance_bytes(instances: Seq<MainInstance>, order: ByteOrder) -> Seq<u8> {
    words_bytes(instance_words(instances), order)
}

/// Word `k` of record `i` of an encoded instance list.
pub open spec fn encoded_word(bytes: Seq<u8>, order: ByteOrder, i: int, k: int) -> u32 {
    word_from_bytes(bytes.subrange(72 * i + 4 * k, 72 * i + 4 * k + 4), order)
}

/// An encoded instance list has 72 bytes for each instance.
pub proof fn lemma_encoded_len(instances: Seq<MainInstance>, order: ByteOrder)
    ensures
        instance_bytes(instances, order).len() == INSTANCE_STRIDE * instances.len(),
{
}

/// Decoding gives back what was encoded. The first 64 bytes of record `i`
/// hold the 16 floats of the matrix of instance `i`, bit for bit and in
/// order; the next 4 hold 1 or 0 as the instance uses the linear sampler or
/// not; the last 4 hold its layer index.
pub proof fn lemma_encode_round_trip(instances: Seq<MainInstance>, order: ByteOrder, i: int)
    requires
        0 <= i < instances.len(),
    ensures
        forall|k: int|
            0 <= k < 16 ==> #[trigger] encoded_word(instance_bytes(instances, order), order, i, k)
                == instances[i].model@[k],
        encoded_word(instance_bytes(instances, order), order, i, 16) == if instances[i]
            .use_linear_sampler {
            1u32
        } else {
            0u32
        },
        encoded_word(instance_bytes(instances, order), order, i, 17) as i32
            == instances[i].texture_index,
{
    let words = instance_words(instances);
    let bytes = instance_bytes(instances, order);
    let raw = instances[i].spec_to_raw();
    assert forall|k: int| 0 <= k < 18 implies #[trigger] encoded_word(bytes, order, i, k)
        == raw.words()[k] by {
        lemma_words_round_trip(words, order, 18 * i + k);
        assert(4 * (18 * i + k) == 72 * i + 4 * k);
        assert((18 * i + k) / 18 == i);
        assert((18 * i + k) % 18 == k);
    }
    assert(raw.words()[16] == raw.use_linear_sampler as u32);
    assert(1i32 as u32 == 1u32) by (bit_vector);
    assert(0i32 as u32 == 0u32) by (bit_vector);
    let index = instances[i].texture_index;
    assert(raw.words()[17] == index as u32);
    assert((index as u32) as i32 == index) by (bit_vector);
    assert forall|k: int| 0 <= k < 16 implies #[trigger] encoded_word(bytes, order, i, k)
        == instances[i].model@[k] by {
        assert(raw.words()[k] == instances[i].model@[k]);
    }
}

/// Encodes the instances for the vertex stage: for each instance, in list
/// order, its matrix (16 floats), its sampler flag and its layer index, 72
/// bytes in all, with no padding within or between records.
pub fn encode(instances: &Vec<MainInstance>) -> (bytes: Vec<u8>)
    ensures
        bytes@.len() == INSTANCE_STRIDE * instances.len(),
        bytes@ == instance_bytes(instances@, ByteOrder::Little) || bytes@ == instance_bytes(
            instances@,
            ByteOrder::Big,
        ),
{
    let mut words: Vec<u32> = Vec::new();
    let mut i: usize = 0;
    while i < instances.len()
        invariant
            i <= instances.len(),
            words@ == instance_words(instances@.take(i as int)),
        decreases instances.len() - i,
    {
        let raw: MainInstanceRaw = instances[i].to_raw();
        let ghost before = words@;
        raw.push_words(&mut words);
        proof {
            let next = instance_words(instances@.take(i + 1));
            assert(raw.words().len() == 18);
            assert(words@.len() == next.len());
            assert forall|j: int| 0 <= j < next.len() implies words@[j] == next[j] by {
                if j < 18 * i {
                    assert(j / 18 < i);
                    assert(words@[j] == before[j]);
                } else {
                    assert(j / 18 == i);
                    assert(j % 18 == j - 18 * i);
                    assert(words@[j] == raw.words()[j - 18 * i]);
                }
            }
            assert(words@ =~= next);
        }
        i += 1;
    }
    assert(instances@.take(i as int) == instances@);
    let image = cast_words(words.as_slice());
    slice_to_vec(image)
}

/// The layout under which the vertex stage reads what [`encode`] writes. It
/// describes the input-assembly stage once; it is not rebuilt per frame.
pub fn layout() -> (r: VertexBufferLayout)
    ensures
        is_instance_layout(r),
{
    MainInstanceRaw::desc()
}

} // verus!
