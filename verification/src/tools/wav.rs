use vstd::prelude::*;

use crate::error::VadServiceError;

verus! {

/// The sample whose little-endian bytes are `low` and `high`.
pub open spec fn sample_le(low: u8, high: u8) -> i16 {
    if high < 128 {
        (low + 256 * high) as i16
    } else {
        (low + 256 * high - 65536) as i16
    }
}

/// The samples whose little-endian bytes follow one another in `bytes`. A
/// single byte left over at the end stands for no sample.
pub open spec fn samples_le(bytes: Seq<u8>) -> Seq<i16> {
    Seq::new((bytes.len() / 2) as nat, |i: int| sample_le(bytes[2 * i], bytes[2 * i + 1]))
}

/// Reads raw little-endian 16-bit samples.
pub fn bytes_to_i16(bytes: &[u8]) -> (samples: Vec<i16>)
    ensures
        samples@ == samples_le(bytes@),
{
    let mut samples: Vec<i16> = Vec::new();
    let count: usize = bytes.len() / 2;
    let mut i: usize = 0;
    while i < count
        invariant
            i <= count,
            count == bytes.len() / 2,
            samples.len() == i,
            forall|k: int| 0 <= k < i ==> samples[k] == #[trigger] samples_le(bytes@)[k],
        decreases count - i,
    {
        let low: u8 = bytes[2 * i];
        let high: u8 = bytes[2 * i + 1];
        let value: i32 = low as i32 + 256 * (high as i32);
        let sample: i16 = if high < 128 {
            value as i16
        } else {
            (value - 65536) as i16
        };
        samples.push(sample);
        i += 1;
    }
    samples
}

/// The WAVE reader of `hound`. Nothing is known of what it holds but what
/// `reads_left` says of it.
#[verifier::external_type_specification]
#[verifier::external_body]
#[verifier::reject_recursive_types(R)]
pub struct ExWavReader<R>(hound::WavReader<R>);

/// What `hound` makes of the bytes of a WAVE file: `None` if it refuses the
/// header, and otherwise what it reads as the file's samples, one after
/// another, `None` standing for a sample that it cannot read as 16 bits.
pub uninterp spec fn wav_reads(wav: Seq<u8>) -> Option<Seq<Option<i16>>>;

/// What a reader has yet to read: the samples to come, `None` standing for
/// one that cannot be read as 16 bits.
pub uninterp spec fn reads_left(reader: hound::WavReader<&[u8]>) -> Seq<Option<i16>>;

/// Calls `hound::WavReader::new` on the bytes of a file. The reader that
/// comes back has all the file's samples yet to read; an error comes back
/// just when `hound` refuses the header.
#[verifier::external_body]
fn open_wav<'a>(wav: &'a [u8]) -> (opened: Result<hound::WavReader<&'a [u8]>, hound::Error>)
    ensures
        match opened {
            Ok(reader) => wav_reads(wav@) == Some(reads_left(reader)),
            Err(_) => wav_reads(wav@) is None,
        },
{
    hound::WavReader::new(wav)
}

/// Calls `next` on the iterator that `hound::WavReader::samples` gives for
/// 16-bit samples. Nothing comes back once every sample has been read;
/// before that the first of the samples to come is read and comes back,
/// as `None` if it could not be read.
#[verifier::external_body]
fn next_sample(reader: &mut hound::WavReader<&[u8]>) -> (read: Option<Option<i16>>)
    ensures
        match read {
            None => reads_left(*old(reader)).len() == 0 && reads_left(*final(reader))
                == reads_left(*old(reader)),
            Some(sample) => {
                &&& reads_left(*old(reader)).len() > 0
                &&& sample == reads_left(*old(reader))[0]
                &&& reads_left(*final(reader)) == reads_left(*old(reader)).drop_first()
            },
        },
{
    match reader.samples::<i16>().next() {
        None => None,
        Some(Ok(sample)) => Some(Some(sample)),
        Some(Err(_)) => Some(None),
    }
}

/// The samples that could be read, in their order.
pub open spec fn readable(reads: Seq<Option<i16>>) -> Seq<i16>
    decreases reads.len(),
{
    if reads.len() == 0 {
        Seq::empty()
    } else {
        match reads.last() {
            Some(sample) => readable(reads.drop_last()).push(sample),
            None => readable(reads.drop_last()),
        }
    }
}

/// Takes what was read for one sample into the samples read so far: a
/// sample that could not be read is left out.
pub fn keep_read(samples: &mut Vec<i16>, read: Option<i16>)
    ensures
        final(samples)@ == match read {
            Some(sample) => old(samples)@.push(sample),
            None => old(samples)@,
        },
{
    match read {
        Some(sample) => {
            samples.push(sample);
        },
        None => {},
    }
}

/// Decodes a WAVE file into its 16-bit samples. A file whose header the
/// decoder refuses is an error; a sample that cannot be read is left out.
pub fn get_samples_from_wav(wav: &[u8]) -> (decoded: Result<Vec<i16>, VadServiceError>)
    ensures
        match decoded {
            Ok(samples) => wav_reads(wav@) matches Some(reads) && samples@ == readable(reads),
            Err(error) => wav_reads(wav@) is None && error is WavReaderError,
        },
{
    let mut reader = match open_wav(wav) {
        Ok(reader) => reader,
        Err(error) => {
            return Err(VadServiceError::WavReaderError(error));
        },
    };
    let ghost all = reads_left(reader);
    let ghost mut done: Seq<Option<i16>> = Seq::empty();
    let mut samples: Vec<i16> = Vec::new();
    loop
        invariant
            all == done + reads_left(reader),
            samples@ == readable(done),
        ensures
            samples@ == readable(all),
        decreases reads_left(reader).len(),
    {
        match next_sample(&mut reader) {
            None => {
                break ;
            },
            Some(read) => {
                keep_read(&mut samples, read);
                proof {
                    assert(done.push(read).drop_last() =~= done);
                    done = done.push(read);
                }
            },
        }
    }
    Ok(samples)
}

} // verus!
