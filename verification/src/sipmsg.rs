//! The protocol message model: a two-character message code, a list of
//! fixed-width field values, and a list of tagged variable fields, together
//! with the wire encoding (fields are terminated by `'|'`).

use vstd::prelude::*;
use vstd::string::StringExecFns;
use crate::text::str_eq;

verus! {

/// One variable-length field: a two-character tag and its value.
pub struct Field {
    pub code: String,
    pub value: String,
}

impl Field {
    pub fn new(code: &str, value: &str) -> (r: Field)
        ensures
            r.code@ == code@,
            r.value@ == value@,
    {
        Field { code: String::from_str(code), value: String::from_str(value) }
    }
}

/// The value of the first field tagged `code`, if any.
pub open spec fn find_field(fields: Seq<Field>, code: Seq<char>) -> Option<Seq<char>>
    decreases fields.len(),
{
    if fields.len() == 0 {
        None
    } else if fields[0].code@ == code {
        Some(fields[0].value@)
    } else {
        find_field(fields.drop_first(), code)
    }
}

/// A protocol message.  Requests and responses share this shape.
pub struct Message {
    pub code: String,
    pub fixed_fields: Vec<String>,
    pub fields: Vec<Field>,
}

/// Wire text of the fixed fields: their values, concatenated.
pub open spec fn wire_fixed(ffs: Seq<String>) -> Seq<char>
    decreases ffs.len(),
{
    if ffs.len() == 0 {
        Seq::empty()
    } else {
        wire_fixed(ffs.drop_last()) + ffs.last()@
    }
}

/// Wire text of the variable fields: tag, value, `'|'`, for each in order.
pub open spec fn wire_fields(fs: Seq<Field>) -> Seq<char>
    decreases fs.len(),
{
    if fs.len() == 0 {
        Seq::empty()
    } else {
        wire_fields(fs.drop_last()) + fs.last().code@ + fs.last().value@ + seq!['|']
    }
}

impl Message {
    /// The full wire text of this message, without the trailing record
    /// terminator (the connection layer appends it).
    pub open spec fn wire(self) -> Seq<char> {
        self.code@ + wire_fixed(self.fixed_fields@) + wire_fields(self.fields@)
    }

    pub fn new(code: String, fixed_fields: Vec<String>, fields: Vec<Field>) -> (r: Message)
        ensures
            r.code == code,
            r.fixed_fields == fixed_fields,
            r.fields == fields,
    {
        Message { code, fixed_fields, fields }
    }

    /// The value of the first variable field tagged `code`, if any.
    pub fn get_field_value(&self, code: &str) -> (r: Option<&String>)
        ensures
            match r {
                Some(v) => find_field(self.fields@, code@) == Some(v@),
                None => find_field(self.fields@, code@) is None,
            },
    {
        let n = self.fields.len();
        proof {
            assert(self.fields@.subrange(0, n as int) =~= self.fields@);
        }
        let mut i: usize = 0;
        while i < n
            invariant
                i <= n,
                n == self.fields@.len(),
                find_field(self.fields@, code@) == find_field(
                    self.fields@.subrange(i as int, n as int),
                    code@,
                ),
            decreases n - i,
        {
            let ghost rest = self.fields@.subrange(i as int, n as int);
            if str_eq(self.fields[i].code.as_str(), code) {
                proof {
                    assert(rest[0] == self.fields@[i as int]);
                }
                return Some(&self.fields[i].value);
            }
            proof {
                assert(rest[0] == self.fields@[i as int]);
                assert(rest.drop_first() =~= self.fields@.subrange(i + 1, n as int));
            }
            i += 1;
        }
        proof {
            assert(self.fields@.subrange(i as int, n as int).len() == 0);
        }
        None
    }

    /// Append a variable field.
    pub fn add_field(&mut self, code: &str, value: &str)
        ensures
            final(self).code == old(self).code,
            final(self).fixed_fields == old(self).fixed_fields,
            final(self).fields@.len() == old(self).fields@.len() + 1,
            final(self).fields@[old(self).fields@.len() as int].code@ == code@,
            final(self).fields@[old(self).fields@.len() as int].value@ == value@,
            forall|i: int|
                0 <= i < old(self).fields@.len() ==> final(self).fields@[i] == old(
                    self,
                ).fields@[i],
    {
        self.fields.push(Field::new(code, value));
    }

    /// Append a variable field when a value is present; otherwise leave the
    /// message unchanged.
    pub fn maybe_add_field(&mut self, code: &str, value: Option<&str>)
        ensures
            final(self).code == old(self).code,
            final(self).fixed_fields == old(self).fixed_fields,
            match value {
                Some(v) => {
                    &&& final(self).fields@.len() == old(self).fields@.len() + 1
                    &&& final(self).fields@[old(self).fields@.len() as int].code@ == code@
                    &&& final(self).fields@[old(self).fields@.len() as int].value@ == v@
                    &&& forall|i: int|
                        0 <= i < old(self).fields@.len() ==> final(self).fields@[i] == old(
                            self,
                        ).fields@[i]
                },
                None => *final(self) == *old(self),
            },
    {
        match value {
            Some(v) => self.add_field(code, v),
            None => (),
        }
    }

    /// Encode this message as wire text.
    pub fn to_sip(&self) -> (r: String)
        ensures
            r@ == self.wire(),
    {
        let mut out = String::new();
        out.append(self.code.as_str());
        let n = self.fixed_fields.len();
        let mut i: usize = 0;
        while i < n
            invariant
                i <= n,
                n == self.fixed_fields@.len(),
                out@ == self.code@ + wire_fixed(self.fixed_fields@.subrange(0, i as int)),
            decreases n - i,
        {
            out.append(self.fixed_fields[i].as_str());
            proof {
                let cur = self.fixed_fields@.subrange(0, i + 1);
                assert(cur.drop_last() =~= self.fixed_fields@.subrange(0, i as int));
                assert(cur.last() == self.fixed_fields@[i as int]);
            }
            i += 1;
        }
        proof {
            assert(self.fixed_fields@.subrange(0, n as int) =~= self.fixed_fields@);
        }
        let m = self.fields.len();
        let mut j: usize = 0;
        while j < m
            invariant
                j <= m,
                m == self.fields@.len(),
                out@ == self.code@ + wire_fixed(self.fixed_fields@) + wire_fields(
                    self.fields@.subrange(0, j as int),
                ),
            decreases m - j,
        {
            out.append(self.fields[j].code.as_str());
            out.append(self.fields[j].value.as_str());
            out.append("|");
            proof {
                reveal_strlit("|");
                assert("|"@ =~= seq!['|']);
                let cur = self.fields@.subrange(0, j + 1);
                assert(cur.drop_last() =~= self.fields@.subrange(0, j as int));
                assert(cur.last() == self.fields@[j as int]);
            }
            j += 1;
        }
        proof {
            assert(self.fields@.subrange(0, m as int) =~= self.fields@);
        }
        out
    }
}

} // verus!
