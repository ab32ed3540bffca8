//! Errors the client reports to its callers.

use vstd::prelude::*;
use vstd::string::StringExecFns;

verus! {

/// The media server declined an add request, or the request could not be
/// delivered. Carries the message the failure was reported with.
#[derive(Debug)]
pub struct UnableToAddMovie {
    msg: String,
}

impl Clone for UnableToAddMovie {
    fn clone(&self) -> (r: Self)
        ensures
            r == *self,
    {
        UnableToAddMovie { msg: self.msg.clone() }
    }
}

impl UnableToAddMovie {
    /// The message this error was raised with.
    pub closed spec fn msg_view(self) -> Seq<char> {
        self.msg@
    }

    pub fn with_msg(msg: &str) -> (r: UnableToAddMovie)
        ensures
            r.msg_view() == msg@,
    {
        UnableToAddMovie { msg: msg.to_owned() }
    }

    /// The error as reports phrase it.
    pub fn message(&self) -> (r: String)
        ensures
            r@ == "Unable to add movie: "@ + self.msg_view(),
    {
        let mut s = "Unable to add movie: ".to_owned();
        s.append(self.msg.as_str());
        s
    }
}

/// The dash-joined field names of an incomplete configuration, as its
/// report lists them.
pub open spec fn joined_with_dashes(fields: Seq<Seq<char>>) -> Seq<char>
    decreases fields.len(),
{
    if fields.len() == 0 {
        Seq::empty()
    } else if fields.len() == 1 {
        fields[0]
    } else {
        joined_with_dashes(fields.drop_last()) + "-"@ + fields.last()
    }
}

/// The configuration misses required fields, so no client can be built
/// from it. Carries the names of the missing fields.
#[derive(Debug)]
pub struct ConfigNotMaterializeable {
    missing_fields: Vec<String>,
}

impl Clone for ConfigNotMaterializeable {
    fn clone(&self) -> (r: Self)
        ensures
            r.fields_view() == self.fields_view(),
    {
        let fields = self.missing_fields.clone();
        proof {
            assert forall|i: int| 0 <= i < self.missing_fields@.len() implies fields@[i]
                == self.missing_fields@[i] by {
                assert(cloned::<String>(self.missing_fields[i], fields[i]));
            }
            assert(fields.deep_view() =~= self.missing_fields.deep_view());
        }
        ConfigNotMaterializeable { missing_fields: fields }
    }
}

impl ConfigNotMaterializeable {
    /// The names of the fields the configuration misses.
    pub closed spec fn fields_view(self) -> Seq<Seq<char>> {
        self.missing_fields.deep_view()
    }

    pub fn with_fields(missing_fields: Vec<String>) -> (r: ConfigNotMaterializeable)
        ensures
            r.fields_view() == missing_fields.deep_view(),
    {
        ConfigNotMaterializeable { missing_fields }
    }

    /// The error as reports phrase it: the missing field names joined
    /// with dashes.
    pub fn message(&self) -> (r: String)
        ensures
            r@ == "Configuration needed: "@ + joined_with_dashes(self.fields_view()),
    {
        let mut s = "Configuration needed: ".to_owned();
        let mut i: usize = 0;
        while i < self.missing_fields.len()
            invariant
                0 <= i <= self.missing_fields@.len(),
                s@ == "Configuration needed: "@ + joined_with_dashes(
                    self.fields_view().take(i as int),
                ),
        decreases self.missing_fields@.len() - i,
        {
            if i > 0 {
                s.append("-");
            }
            s.append(self.missing_fields[i].as_str());
            proof {
                let fv = self.fields_view();
                assert(fv.take(i + 1).drop_last() =~= fv.take(i as int));
                assert(fv.take(i + 1).last() == fv[i as int]);
            }
            i += 1;
        }
        proof {
            assert(self.fields_view().take(self.missing_fields@.len() as int)
                =~= self.fields_view());
        }
        s
    }
}

} // verus!
