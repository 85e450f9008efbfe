//! The embedded word list behind the dictionary index.
//!
//! The list is a curated data asset: one lower-case word per line, UTF-8,
//! newline delimited, no header. Blank lines are permitted in this format
//! and are ignored when the index is built. Entries are consumed verbatim,
//! so they are expected to already be lower-case. The text is held in
//! consecutive pieces; [`word_list`] is the whole of it.

use vstd::prelude::*;
use vstd::string::*;

verus! {

pub const WORDS_01: &'static str = "aa
aab
aaba
aabb
aabd
aabe
aabf
aac
aaca
aacb
aaccttrr
aacd
aace
aad
aada
aadc
aadd
aade
aadf
aae
aaeb
aaee
aaef
aaf
aafa
aafc
aafd
aafe
aafee
aarch
aardvark
aaron
aashil
aastha
aayush
ab
aba
abaa
abac
abae
abaf
abandoned
abandoning
abap
abb
abba
abbasi
abbc
abbd
abbe
abbf
abbott
abbr
abbrev
abbreviate
abbreviated
abbreviating
abbreviation
abbreviations
abc
abca
abcb
abcc
abcd
abcde
abcdef
abcdefabcdef
abcdefg
abcf
abcmeta
abcoll
abcs
abd
abda
abdalla
abdd
abde
abdel
abdf
abdirahim
abdul
abdurakhimov
abe
abea
abeb
abec
abed
abee
abf
abfa
abfb
abfcb
abfd
abfda
abfe
abfed
abfnrtv
abhishek
abi
abide
abiflags
abilities
ability
abis
abitekaniza
able
abmusse
abnf
abnormally
abort
aborted
aborterror
aborting
aborts
abortsignal
aboukhadijeh
about
aboutdialog
abouthiroppy
above
abra
abracadabra
abrupt
abruptly
abs
absence
absent
absolute
absolutely
absorb
absorbed
abspath
abstract
abstraction
abstractions
abstractmethod
abstracts
abstractserver
abstractset
abu
abuse
abused
abuz
ac
aca
acaa
acab
acac
acad
academic
acae
acaf
acb
acbb
acbd
acbe
acbf
acc
acca
accb
accd
acce
accelerate
accelerated
accelerator
accelerators
accent
accept
acceptable
acceptance
accepted
acceptenv
accepting
acceptnode
accepts
access
accessed
accesses
accessibility
accessible
accessing
accessor
accessors
accfa
accident
accidental
accidentally
accommodate
accommodation
accompanied
accompanies
accompany
accompanying
accomplish
accomplished
accord
accordance
according
accordingly
account
accounting
accounts
accumulate
accumulated
accumulates
accumulating
accumulator
accuracy
accurate
accurately
acd
acda
acdb
acdc
acdd
acdf
ace
acea
acec
aced
acef
acf
acfa
acfb
acfc
acfe
acff
achenbach
achieve
achieved
achieves
achieving
ack
ackermann
acknowledge
acknowledged
acknowledges
acknowledgment
ackup
acl
aclose
acls
acm
acme
acorn
acos
acquire
acquired
acquires
acquiring
acquisition
acronym
across
acs
act
acted
acting
action
actionable
actions
activate
activated
activates
activating
activation
active
actively
activestate
activities
activity
actor
actors
acts
actual
actually
acute
acw
ad
ada
adaa
adab
adaf
adam
adamian
adamic
adams
adao
adap
adapt
adaptability
adaptation
adapted
adapter
adapters
adaptive
adapts
adb
adbb
adbd
adbe
adc
adcb
adcc
adcd
adce
adcf
add
adda
addaleax
addb
addbase
addca
addcacert
addcleanup
addclosehook
addcmd
addcomponent
addcontext
addeb
added
addenda
addendum
addepalli
adderror
addf
addfailure
addfilter
addftime
addhandle
addhandler
addinfo
addinfourl
adding
addington
addison
additems
addition
additional
additionally
additions
additive
addlevelname
addlistener
addmembership
addon
addone
addons
addpromisehook
addr
addrconfig
address
addressed
addresses
addressing
addresslist
addressof
addresstojs
addresstype
addrinfo
addrs
addrspec
addrz
adds
addsection
addsitedir
addskip
addstr
addsubnet
addsubtest
addsuccess
addtest
addtests
addtrailers
addtwo
adduser
ade
adebf
adec
aded
adee
adef
adelmann
adequate
adequately
adf
adfb
adfc
adfe
adff
adhere
adheres
adhering
adhikari
adict
adil
adinarayana
adipiscing
aditya
adjacent
adjust
adjusted
adjusting
adjustment
adjustments
adjusts
adjustscrolls
adler
admin
administrative
administrator
administrators
admission
admonition
adname
adopt
adopted
adopting
adoption
adorno
adri
adrian
adriana
adrien
adt
aduh
adv
advance
advanced
advances
advancing
advantage
advantages
adverb
adversely
advertise
advertised
advertisement
advertisements
advertises
advertising
advice
advise
advised
advises
advisories
advisory
advocacy
advocating
ae
aea
aeaa
aeac
aead
aeae
aeaf
aeafb
aeb
aebb
aebc
aebd
aebe
aec
aeca
aecb
aecc
aecd
aed
aeda
aedb
aee
aeea
aeec
aeed
aeef
aef
aefa
aefb
aefc
aefd
aefe
aeff
aenter
aes
aetheryx
aexit
af
afa
afac
afad
afaf
afb
afbb
afbd
afbe
afbf
afc
afcb
afcc
afcd
afce
afcea
afcf
afd
afdb
afdbe
afdc
afdef
afdf
afe
afea
afeb
afec
afed
afee
afef
aff
affb
affc
affd
affe
affect
affected
affecting
affects
affero
affine
affinity
affirmed
affirms
affix
afghanistan
aforementioned
africa
afs
after
afterconnect
aftereach
afterfork
aftermkdirp
afterward
afterwards
ag
again
against
agarwal
agbakpem
age
agen
agenda
agent
agentoptions
agentremove
agents
aggregate
aggregated
aggregateerror
aggregating
aggregation
aggressive
aggressively
agiani
agnostic
ago
agranov
agrawal
agree
agreed
agreement
agreements
agrees
aguilar
agustin
ah
ahafs
ahead
ahem
ahkrin
ahmad
ahmed
ahn
ahoy
ai
aid
aidan
aids
aifc
aiff
aileen
aim
aims
airing
aissue
aiter
aitken
aivo
aix
aj
ajay
ajido
ajruli
ak
aka
akamai
akash
akhgari
akhil
akimoto
akin
akio
akira
akito
akitsu
akram
akshay
akshayk
akutsu
al
alabel
alan
alarm
alarming
alas
alba
albao
albeit
albert
alberto
albright
aldo
alec
alef
alejandro
aleksandr
aleksei
aleksey
alen
alena
aleph
alert
alerts
alessandro
alex
alexahdp
alexander
alexandre
alexandru
alexbostock
alexbs
alexcfyung
alexey
alexeym
alexis
alexzherdev
alfa
alfred
alg
algebra
algeria
algo
algor
algorithm
algorithms
algs
alhadis
ali
alias
aliased
aliasedbuffer
aliasedbuffers
aliasedstruct
aliases
aliasing
alice
align
aligned
aligning
alignment
alignmethod
aligns
alike
alimanovi
aliqua
alist
alive
alixang
aljcepeda
alkagar
all
allan
allegation
alleging
allen
alleviate
alljson
alloc
alloca
allocate
allocated
allocates
allocating
allocation
allocations
allocator
allocators
allocfix
allocs
allow
allowable
allowance
allowed
allowhalfopen
allowhttp
allowing
allowlist
allows
allowzero
allowzip
allsettled
almanzar
almattar
almeida
almost
alnyan
alohaglenn
alone
along
alongside
alpha
alphabet
alphabetic
alphabetical
alphabetically
alphabetise
alphabetize
alphadio
alphanum
alphanumeric
alpine
alpn
alpncallback
alpnprotocol
alpnprotocols
already
als
also
alt
altdocs
altepeter
alter
altered
altering
alternate
alternately
alternates
alternating
alternation
alternative
alternatively
alternatives
alters
although
altinstall
altname
altnames
altogether
altsep
altsvc
altzone
alvaro
alves
always
alyssaq
am
amalg
amanpreet
amanuel
amar
amara
amaro
amaury
amax
amazon
ambassador
ambassadors
ambiguities
ambiguity
ambiguous
ambrosioni
amd
amelia
ameling
amend
amended
amending
amer
america
american
amery
amet
ameta
amie
amila
among
amongst
amount
amounts
amp
ampersand
amplification
amplify
amrios
amt
an
anachronistic
analogous
analogously
analysator
analyse
analysis
analytics
analyze
analyzing
aname
anand
anatoli
anatoly
anawesha
ancdata
ancestor
ancestors
ancestry
anchika
anchor
anchored
anchoring
anchors
ancient
ancillary
and
anders
anderson
andesen
andiemontoyeah
andr
andrade
andrango
andras
andrasq
andre
andrea
andreas
andreasmadsen
andrei
andres
andreu
andrew
andrews
andrey
andreysoktoev
andriano
andries
android
andy
anentropic
anew
anext
ang
angel
angle
angles
angular
anh
aniketshukla
anilson
animation
anish
ankit
ankita
ankur
ann
anna
annamag
anne
annex
annie
anno
annonymous
annotate
annotated
annotatedalias
annotating
annotation
annotations
announce
announced
announcement
annoying
annoys
anoff
anomalies
anonrig
anonymization
anonymize
anonymous
anonymously
another
ans
anshul
ansi
ansicolor
ansicolors
ansidecoder
ansiformat
ansimap
answer
answered
answering
ant
anthony
anti
anticipate
anticipation
antivirus
anto
antoine
anton
antonio
antonov
antony
antoro
antsmartian
anu
anull
anupama
any
anybody
anymeta
anymore
anyone
anystr
anything
anytime
anyway
anyways
anywhere
ao
aonghus
aopen
ap
apache
apapirovski
apart
ape
apeltop
apfs
api
apilinks
apis
apl
apoorvanand
apostrophe
apostrophes
app
apparatus
apparent
apparently
appauthor
appdata
appdirs
appear
appearance
appeared
appearing
appears
append
appendchild
appenddata
appended
appendfile
appendfilesync
appendheader
appendices
appending
appendix
appendleft
appends
appengine
apperson
apple
applicability
applicable
application
applications
applied
applies
apply
applying
appmetrics
appname
appreciated
";

pub const WORDS_02: &'static str = "approach
approaches
approaching
appropriate
appropriately
approval
approvals
approve
approved
approving
approx
approxidate
approximate
approximated
approximately
approximates
approximation
apps
appveyor
apr
april
apt
apthorp
aqnouch
aqrln
aqua
aquatk
ar
arab
arabia
arabic
arai
aras
aravinth
arbitrarily
arbitrary
arboleda
arborist
arc
arch
archana
arches
archimport
architecture
architectures
archival
archive
archived
archiveinfo
archiver
archives
archiving
archs
arcname
ardel
arduino
are
area
areas
aren
arena
arenas
ares
arg
argc
argcount
argentina
arglist
argon
argparse
args
argspec
argspectest
argtuple
argtype
argtypes
arguably
argued
argument
argumenterror
argumentparser
arguments
argv
ari
aria
arial
arian
arise
arises
arising
arith
arithmetic
arkadiy
arkadiyt
arkerone
arm
armin
armiros
armor
armored
armv
arne
arnold
around
aroyan
arr
arrange
arranged
arrangement
arrangements
arranges
arranz
array
arraybuffer
arraybuffers
arrayclone
arrayisarray
arrayofstreams
arrays
arraysize
arraystream
arraytobuffer
arraytohash
arrival
arrive
arrived
arrives
arriving
arrow
arrowood
arrows
arrowsmith
arseneau
arseniy
arslan
art
artem
arthur
article
articles
artifact
artifacts
artificial
artificially
artur
aryung
as
asafdav
asan
asap
asc
ascending
ascher
ascii
asciibetical
asciidoc
asciidoctor
asctime
asdf
asdict
asencio
ash
ashcripps
ashfield
ashimine
ashish
ashita
ashley
ashleysimpson
ashok
ashraf
ashton
ashworth
asia
asian
aside
asindexedpairs
ask
askcolor
asked
askfilename
askfloat
asking
askinteger
askokcancel
askopenfile
askpass
askquestion
askretrycancel
asks
askstring
asktabwidth
askyesno
askyesnocancel
aslr
asm
asn
asname
aspect
aspects
aspx
ass
assemble
assembled
assembler
assembly
asserion
assert
assertcrypto
asserted
assertequal
assertfalse
assertgreater
assertin
asserting
assertion
assertionerror
assertions
assertis
assertisnone
assertisobject
assertless
assertlogs
assertnologs
assertnotequal
assertnotin
assertnotregex
assertpath
assertraises
assertregex
asserts
asserttrue
assess
assessed
assessment
asset
assets
assign
assigned
assigning
assignment
assignments
assigns
assist
associate
associated
associates
associating
assorted
assuming
assumption
assumptions
assure
assures
ast
asterisk
asterisks
asthana
astimezone
astrand
astring
asyc
asymmetric
asymp
asymptotic
async
asynccall
asyncdispose
asyncfunction
asyncgenerator
asyncgens
asynchook
asynchooks
asynchronous
asynchronously
asyncid
asyncio
asynciomodule
asynciterable
asynciterator
asyncqueue
asyncrequest
asyncreset
asyncresource
asyncresources
asyncresult
asyncscope
asyncwrap
at
atan
atcodes
ate
atexit
athrow
atian
atime
atkinson
atlassian
atleast
atlow
atlowchemi
atob
atom
atomic
atomically
atomicity
atomics
atoms
aton
atreides
atrioom
attach
attached
attaches
attaching
attachment
attachments
attack
attacker
attackers
attacks
attard
attempt
attempted
attempting
attempts
attention
attenuated
attias
attila
attlist
attr
attrgetter
attrib
attribs
attribute
attributed
attributeerror
attributes
attributesfile
attributesimpl
attributing
attribution
attributions
attrname
attrs
attrsns
au
audience
audio
audit
audited
auditing
audrey
aug
augassign
auger
augie
augment
augmented
augmenting
august
austin
australia
austria
autem
auth
authbase
authenticate
authenticated
authenticating
authentication
authenticators
authenticity
authinfo
authkey
authobject
author
authored
authoring
authoritative
authorities
authority
authorization
authorized
authorizes
authorizing
authors
authorship
authtaglength
auto
autoattribute
autoclass
autoclose
autocommit
autocomplete
autocompletion
autoconf
autocorrect
autocrlf
autodelete
autodestroy
autodetect
autodetected
autodetection
autodetects
autoedit
autoescapestr
autoexpand
autofix
autofixer
autogen
autogenerated
autoindent
automagically
automake
automata
automate
automated
automates
automatic
automatically
automating
automation
automodule
autonomous
autopacklimit
autorebase
autoreconf
autoreset
autoridad
autosave
autoselection
autosetupmerge
autospec
autosquash
autostash
autotools
autoupdate
aux
auxiliary
av
avail
availability
available
average
averages
avery
avi
aviva
avoid
avoidance
avoided
avoiding
avoids
avulapati
avx
aw
await
awaitable
awaitdrain
awaited
awaiting
awaits
awakened
aware
awareness
away
awk
awkward
awoken
aws
ax
axel
axvm
ayase
aymen
ayush
az
azard
azofeifa
azure
azzola
ba
baa
baae
baaf
bab
baba
babc
babd
babe
babel
bable
babygoat
bac
baca
bacb
back
backed
backend
backendinvalid
backends
backes
backfill
background
backgrounded
backgrounds
backhouse
backing
backingstore
backlog
backoff
backport
backported
backporter
backporting
backports
backpressure
backreference
backslash
backslashes
backspace
backtick
backticks
backtrace
backtrack
backtracking
backup
backvar
backward
backwards
bacon
bad
bada
badalic
badb
badc
badcf
badcommand
badd
bade
badge
badhex
badly
badmetadata
badname
badstatusline
badzipfile
bae
baeb
baec
baed
baee
baf
bafb
bafba
bafc
bafd
bafe
bag
bagder
baggage
baguette
bah
bahrain
bail
bails
bajanik
bajto
bajtos
bajwa
bak
baking
bal
balakrishna
balance
balancing
ball
balloon
balloy
bamberg
bamieh
ban
banana
band
bandwidth
bang
bangs
banned
banner
baptiste
baquero
bar
barber
barboza
barcolumn
bare
barf
barfed
barfile
barfing
barfs
barger
baril
barinov
bark
barlaan
barrett
barrier
barry
bars
bartek
barth
barthwal
bartlomiej
bartosz
baruch
baruchel
base
baseadapter
basecache
basecandidate
basecflags
based
basedir
baseentrypoint
baseeventloop
baseexception
basefilename
basehandler
baseheuristic
basehttpserver
baseline
basemanager
basename
basenames
baseobject
baseobjectptr
baseobjectptrs
baseobjects
basepath
baseprocess
baseprotocol
basereporter
baseresolver
bases
basespecifier
basesslerror
basestream
basestring
basetestsuite
basetransport
baseversion
bash
bashisms
bashrc
bashurov
basic
basically
basicconfig
basics
basis
basit
basket
bastardised
bastemur
bastian
bastien
bat
batch
batched
batches
batching
batista
batra
batrla
battle
bauer
bautista
bavail
baw
baxter
bayotop
baz
bazaar
bazel
bazfile
bba
bbaa
bbac
bbae
bbca
bbce
bbcode
bbcodes
bbda
bbde
bbe
bbea
bbec
bbed
bbfa
bbfe
bbox
bca
bcad
bcaf
bcba
bcbe
bcca
bcce
bcda
bcde
bce
bceb
bcec
bced
bceda
bcfa
bcoe
bda
bdaa
bdab
bdac
bdad
bdaf
bdba
bdbe
bdca
bdce
bdda
bdde
bde
bdec
bdece
bded
bdef
bdfeb
bdist
be
bea
beaa
beab
beac
beach
bead
beaf
bear
beaten
beautiful
beb
beba
bebb
bebd
bec
beca
became
because
becb
becc
becca
bece
becec
beck
becker
beckert
beckwith
become
becomes
becoming
bed
bedcd
bedd
bede
bedf
bedford
bee
beea
beebee
beed
beef
been
beep
beeson
bef
befa
befac
befb
befc
befd
befe
beff
beffc
before
beforeexit
beforehand
beg
began
begidx
begin
beginner
beginners
beginning
begins
begum
behalf
behave
behaved
behaves
behaving
behavior
behaviors
behaviour
behaviours
behind
being
bekenev
bekkhus
bel
belaifa
belanger
belardi
belatedly
belcher
belder
belgium
belief
believe
believed
believes
belize
bell
beller
bells
belong
belonging
belongs
below
belt
ben
bench
benches
benchmark
benchmarker
benchmarkers
benchmarking
benchmarks
benchs
bendall
beneath
benedikt
beneficial
benefit
benefits
bengl
beni
benign
benjamin
benjamingr
benji
benno
benoit
beopen
ber
berge
bergstr
berkeley
bernaldo
bernardo
berners
berrini
berry
bert
beshay
beside
besides
best
beta
betavariate
beth
bethany
bethgriggs
better
betts
between
bevenius
beware
beyond
bezooyen
bfa
bfaa
bfab
bfac
bfad
bfae
bfaf
bfba
bfbce
bfbe
bfca
bfda
bfdad
bfde
bfe
bfec
bfed
bfef
bffa
bffe
bfree
bgansicolor
bgcolor
bhalla
bhat
bhavani
bhutan
bi
bias
bibliography
bibtex
bich
bicking
bickle
bidi
bidirectional
bidur
bieber
big
bigcap
bigcharset
bigcup
bigdecimal
bigendian
bigendianunion
bigger
biggest
bigint
bigints
bignum
bigobj
bigodot
bigoplus
bigot
bigotimes
bigsection
bigsqcup
biguint
bigvee
bigwedge
bill
bilochub
bin
binaries
binary
binaryio
binaryso
binascii
binbytes
bind
bindata
binders
binding
bindingdata
bindings
bindingslist
bindir
binds
bindtags
binfloat
bing
binget
binint
binlibdest
binlog
binomial
binop
binpersid
binput
binstring
bintao
binunicode
binutils
bio
biowski
bird
birds
birthday
birthtime
birunthan
bis
bisect
bisecting
bisection
bishop
biswas
bit
bitandbang
bitbucket
bite
";

pub const WORDS_03: &'static str = "bitmap
bitmaps
bitmask
bitness
bitor
bitrate
bitrot
bits
bitset
bitstream
bitwise
biz
bizarre
bjdelro
bjoerkelund
bjorn
bjornson
black
blackyoup
blah
blaine
blair
blake
blakehall
blame
blamed
blameview
blanche
blanco
bland
blank
blankboundary
blanket
blanks
blau
blazing
bldshared
blend
blew
blibpath
blindly
blink
blinking
blkid
blksize
bloat
bloated
blob
blobs
block
blocked
blocker
blocking
blockingly
blocklist
blocknum
blockquotes
blocks
blocksize
blog
blogspot
bloom
blow
blowfish
blowing
bltin
blue
bluebird
bluesky
blugavere
blurb
blyz
bmeck
bmeurer
bmuenzenmeyer
bnoordhuis
bnot
bo
board
boards
boarman
bob
bobadilla
bod
bodies
body
bogdan
bogus
bogusly
boilerplate
boivin
bol
bold
boldface
bolivia
bom
bomb
bonawentura
bond
bondarenko
bones
boneskull
bonggi
bonus
boo
book
bookkeeping
books
bool
boolean
booleans
booleanvalue
booleanvar
boolop
bools
boom
boost
boot
booth
booting
bootstrap
bootstrapnode
bootstrapped
bootstrapper
bootstrappers
bootstrapping
border
bordermode
borders
borderwidth
borgerson
boring
boringssl
borins
born
boron
borrow
borrowed
borrowing
borrows
bort
bosnia
boss
boston
bot
bota
botched
botella
botframe
both
bother
bottom
botvin
bouncingball
bound
boundaries
boundary
bounded
bounding
bounds
bounty
bourgois
bourne
bouvier
bow
bowtie
box
boxed
boxes
boxstarter
boyer
bpayload
bpbynumber
bpformat
bplist
bpnumber
bpo
bra
brace
braced
braceleft
braceless
braceright
braces
bracket
bracketed
bracketing
bracketleft
bracketright
brackets
brad
braden
bradford
bradh
bradley
brainfuck
branch
branched
branches
branching
branchname
brand
brandchecks
branding
brandl
brandon
brandt
brant
braydon
brazil
breach
bread
breadth
break
breakage
breakages
breaking
breakiterator
breaklength
breakonsigint
breakpionts
breakpoint
breakpoints
breaks
brefs
brendan
brendon
brenith
brenner
brett
brettkiefer
bretton
brevity
brew
brewster
brian
bridge
bridgear
bridgewater
brief
briefly
bright
brightblack
brightblue
brightcyan
brighter
brightgreen
brightmagenta
brightness
brightred
brightyellow
brik
brillout
bring
bringing
brings
brink
british
brkint
broad
broadcast
broadcasts
broader
broadly
broberg
brodsky
brody
broekema
broke
broken
brokenbarrier
brokenexecutor
bromann
bronson
brossard
brother
brotli
brotlicompress
brought
brouwer
brown
brownlee
brownman
browsable
browse
browseable
browser
browsers
browsing
bruce
brunei
brunetti
bruni
brunner
bruno
brute
bryan
bryant
bryce
bryon
brzozowski
bsize
bswap
btags
btoa
bubble
bubbled
bubbles
bubbling
bucci
buch
buchanan
bucio
buck
bucket
bucksch
bud
budeanu
buelens
buf
buff
buffer
buffered
bufferediobase
bufferedrandom
bufferedreader
bufferedrwpair
bufferedwriter
buffererror
bufferflags
bufferfull
buffering
bufferlist
buffers
buffersize
buffertooshort
buffertopoint
bufferwrapper
buflen
bufoviridis
bufsize
bug
bugfix
bugfixes
buggy
bugreport
bugs
buhacoff
buholzer
build
buildable
buildbot
buildbots
builddate
builder
builders
building
buildout
buildroot
builds
buildstamp
buildtag
buildtime
buildtracker
buildtype
built
builtin
builtinlibs
builtinlist
builtinloader
builtinmodules
builtins
buji
bulk
bullet
bulleted
bulletin
bulletins
bullotta
bump
bumped
bumping
bumps
bunch
bundle
bundled
bundles
bundling
bunk
bunton
burda
burke
burrito
burton
burzy
bus
bush
bushe
business
busoli
bust
busted
busy
busybox
busyloop
but
butler
butt
butter
button
buttonframe
buttonpress
buttonrelease
buttons
buty
buus
bvisible
by
bye
bygroups
bynens
byob
byobrequest
bypass
bypassed
bypasses
bypassing
byram
byref
byrne
bystrek
byt
byte
bytearray
bytecode
bytecodes
bytelength
byteoffset
byteorder
bytes
bytesgenerator
bytesio
bytesource
bytesparser
bytesread
bytestokey
bytestream
bytestring
byteswap
byteswarning
byteswritten
bzip
ca
caa
caab
caac
caad
cab
caba
cabb
cabf
cabot
cabrera
cac
cacb
cacc
cacd
cace
cacee
cacert
cacf
cache
cacheable
cachebleed
cachecommand
cachecontrol
cached
cacheddata
cacheentry
cacheinfo
caches
caching
cactysman
cad
cada
cadata
cadb
cadc
cade
cae
caeb
caec
caed
caee
caef
caf
cafa
cafd
caff
cafile
cage
cai
caio
cake
cal
calc
calcsize
calculate
calculated
calculates
calculating
calculation
calculations
caleb
calebboyd
calendar
calendars
california
call
calla
callable
callables
callb
callback
callbackified
callbackify
callbackinfo
callbackmap
callbackqueue
callbacks
callbackscope
callcleanup
callcount
called
callee
callees
caller
callers
callframeid
calling
callmelann
calloc
calls
callsetup
callsfunc
callsite
callteardown
calltestmethod
calltip
calltips
calltipwindow
calltracker
calvin
calvinmetcalf
cam
camantigue
camargo
cambodia
came
camel
camelcase
camera
cameron
camillo
camilo
campagna
campaign
campailla
campbell
campinho
can
canada
canadahonk
canary
cancel
cancelable
cancelation
cancelbubble
canceled
canceling
cancellation
cancelled
cancellederror
cancelling
cancels
cand
candidate
candidates
candy
canned
cannot
cannotusecache
canonic
canonical
canonicalize
canonicalized
canonicalizes
canonname
canparse
cant
cantelon
canvas
canvasx
canvasy
canvheight
canvwidth
cap
capabilities
capability
capable
capacity
capath
capi
capital
capitalization
capitalize
capitalized
capitalizing
capitals
capitlaztion
caplan
capped
cappelle
caps
capsuletype
caption
capture
captured
captures
capturing
capwords
car
carbajo
carbon
carcaci
card
cardoso
cards
cardwell
care
careful
carefully
careless
cares
caret
carets
caribbean
carl
carlier
carlo
carlos
carmo
carolina
caron
carriage
carried
carries
carry
carrying
cart
carter
carterbancroft
carthew
carvalho
cas
casas
cascade
cascading
case
cased
casefix
casefold
cases
casevar
casey
casie
casing
cast
casted
castillo
casting
casts
casual
caswell
cat
cataldo
catalina
catalog
catch
catches
catching
categories
categorize
categorized
category
cater
catering
cats
caught
caulfield
cause
caused
causes
causing
caution
cautious
cavalier
cavalli
caveat
caveats
cavity
caydenberg
cba
cbab
cbac
cbad
cbae
cbaf
cbba
cbbe
cbca
cbda
cbdac
cbde
cbe
cbea
cbeb
cbec
cbecb
cbed
cbee
cbef
cbfa
cbfde
cbreak
cbsize
cca
ccaa
ccab
ccac
ccache
ccad
ccae
ccaf
ccbe
cce
ccea
cceae
ccec
cced
ccedf
ccee
ccef
ccfa
ccfe
cclauss
cctest
cctests
cda
cdaa
cdad
cdae
cdaf
cdata
cdba
cdbe
cdca
cde
cdea
cdeb
cdec
cdecl
cded
cdee
cdef
cdfad
cdnadmin
cdot
ce
cea
ceaa
ceab
cead
ceaf
cease
ceb
ceba
cebank
cebb
cebd
cebe
cec
ceca
cecb
cecc
cecchi
cecd
ced
ceda
cedb
cedd
cede
cedf
cedilla
cee
ceea
ceeb
ceec
ceed
ceef
cef
cefa
cefb
cefc
cefd
cefe
ceil
ceiling
cell
cellpadding
cells
cellspacing
celltype
cellvars
cent
center
centered
centos
central
centralise
centralize
centrum
century
cepeda
cert
certain
certainly
certcb
certcbdone
certdata
certficate
certfile
certifi
certificacion
certificate
certificates
certification
certify
certs
cervin
cesar
ceschi
cessation
cfa
cfaa
cfab
cfac
cfad
cfae
cfaf
cfallocatorref
cfarray
cfarraycreate
cfarrayref
cfba
cfbe
cfcba
cfce
cfconst
cfda
cfdata
cfdatacreate
cfdataref
cfdictionary
cfe
cfea
cfeb
cfecd
cfef
cferror
cfgbindings
cfgettypeid
cfgparser
cfile
cfindex
cflag
cflags
cfmutablearray
cfrelease
cfreleased
cfretain
cfstring
cfstringref
cftype
cftypeid
cftyperef
cfunctype
cfwslist
cget
cgi
cgihttpserver
cgit
chacha
chad
chain
chainable
chained
chaining
chainlint
chainmap
chainreplyto
chains
chair
chaitanya
chakra
chakraborty
chal
chalker
challenge
challenges
champion
chan
chance
chances
change
changed
changelist
changelog
changelogs
changes
changeset
changesets
changestest
changing
channel
channels
chapman
chapter
char
character
characterized
characters
charalampos
charcodeat
chardet
charge
charged
chari
charjunk
charlengthat
charlengthleft
charles
charlie
charmander
charmap
charno
charref
charrefs
chars
charset
charseterror
charsets
chart
charter
chase
chat
chatfield
chatterjee
chatty
chaturvedi
chaudhry
chauhan
chaulet
chcodes
chdir
cheap
cheaper
cheat
chebab
check
checkable
checkbox
checkbutton
checkbuttons
checkcache
checkclosed
checkcommand
checkcontinue
checked
checkemail
checker
checkers
checkhost
checkimports
checkin
checking
checkip
checklevel
checklinks
checkout
";

pub const WORDS_04: &'static str = "checkouts
checkpoint
checkposition
checkprime
checkreadable
checkresult
checks
checkstat
checksum
checksums
checkwritable
chegham
cheight
chemi
chen
cheney
cheng
chenged
chengzhong
cheni
cherry
cherrypick
cheryl
chetan
cheung
chexiongsheng
cheyenne
chflags
chi
chiahao
chiaki
chicken
child
childnodes
childprocess
children
childs
chile
chin
china
chinedu
chinese
ching
chinmoy
chiras
chirgwin
chittora
chlorine
chmod
chmodsync
chmtime
cho
choa
choco
choi
choice
choices
choke
choked
chon
chonka
choose
chooser
chooses
choosing
chop
chopped
chopping
chose
chosen
chougule
chowdhurian
chown
chownsync
chrbergert
chris
chrisdickinson
chrisforrette
chrisjohn
christian
christie
christina
christine
christmas
christoph
christopher
christos
christy
chrome
chromedevtools
chromium
chroot
chu
chuan
chuck
chui
chung
chungngoops
chunk
chunked
chunking
chunks
chunksize
chunky
chunyang
church
churn
chux
chwalba
ci
ciabot
cid
cidr
cif
cigtm
cii
cipher
cipherbase
cipheriv
ciphers
ciphertext
cipherupdate
circ
circle
circled
circuit
circular
circulate
circumflex
circumstance
circumstances
circumvention
cirrus
cit
citgez
citgm
city
cius
civil
cjihrig
cjscache
claessens
claim
claimed
claiming
claims
claire
clakech
clamp
clamped
clampedarray
clang
clara
clarence
clarification
clarifications
clarified
clarifies
clarify
clarifying
clarity
clark
clarke
clash
class
classdef
classes
classic
classical
classification
classified
classifier
classifiers
classify
classinst
classmethod
classmethods
classname
classnotfound
classobject
classtreeitem
classv
classvar
claudiahdz
claudio
clause
clauses
clauss
clay
clean
cleandoc
cleaned
cleaner
cleaning
cleanly
cleans
cleanse
cleanup
cleanups
clear
clearbuffer
clearcache
cleared
clearer
cleargc
clearify
clearimmediate
clearing
clearinterval
clearline
clearly
clearout
clears
clearscreen
cleartext
cleartimeout
clemens
clement
clever
cleverly
clewell
cli
click
clickable
clicked
clicking
clicks
client
clienterror
clienthello
clienthttp
clientoptions
clientopts
clientrequest
clients
clinic
clinton
clion
clip
clipboard
clippath
clipped
clist
clobber
clobbered
clobbering
clock
clocks
clockwise
cloexec
clone
cloneable
cloned
clones
clonesslcerts
cloning
closable
close
closed
closedir
closefd
closefp
closefrom
closegroup
closehandle
closely
closer
closers
closes
closest
closesync
closing
closure
closures
cloud
cloudflare
clover
clsname
club
clubs
clubsuit
clue
cluer
cluster
clusters
clutter
cmake
cmakelists
cmath
cmdline
cmdlist
cmdloop
cmdoptions
cmdqueue
cmu
cna
cname
cnfmerge
cnnic
cnonce
cnri
co
coakley
coalesce
coalesced
coalescing
coc
cocci
coccicheck
coccinelle
cocoa
code
codebase
codebytere
codec
codecinfo
codecontext
codecov
codecs
coded
codename
codeop
codeowner
codeowners
codepath
codepaths
codepickler
codepoint
codepoints
codeproxy
codeql
coderaiser
codes
codeset
codesign
codetype
codevana
codify
coding
codings
codippily
codreanu
cody
coe
coefficient
coerce
coerced
coerces
coercing
coercion
coff
coffee
coffeescript
coghlan
cogito
cohen
coherence
col
cola
colab
colaborators
cold
colin
collab
collaboration
collaborative
collaborator
collaborators
collapse
collapsed
collapsing
collateral
collect
collected
collectible
collecting
collection
collections
collective
collectively
collector
collects
collide
collina
collins
collision
collisions
colloquialism
colno
colom
colombia
colon
colons
color
colorama
colorbox
colorchooser
colordelegator
colored
coloring
colorization
colorize
colorized
colorizer
colorizing
colormap
colormode
colors
colorscheme
colorsys
colorsystem
colorterm
colortriplet
colour
coloured
colours
cols
colspan
column
columnar
columnnumber
columnoffset
columns
columnspan
colvin
colwidth
com
comanescu
combarro
combination
combinations
combine
combined
combiner
combines
combining
combo
combobox
come
comes
comfort
comfortable
coming
comma
command
commandargs
commanderror
commandline
commandname
commands
commandstring
commas
commaspace
comment
commentchar
commentclose
commented
commenthandler
commenting
comments
commercial
commercially
commit
commitencoding
commitment
commits
committed
committee
committer
committers
committing
committish
common
commoncrypto
commondialog
commonjs
commonly
commonmark
commonname
commonpath
commonprefix
commons
communicate
communicating
communication
communications
communities
community
commutativity
comp
compabile
compact
compacts
companies
companion
company
comparable
compare
compared
compares
comparing
comparions
comparison
comparisons
compat
compatibility
compatible
compelled
compensate
compensated
compensation
competing
competition
compilable
compilation
compilations
compile
compileall
compiled
compiler
compilers
compiles
compiling
complain
complained
complaining
complains
complaint
complement
complements
complete
completed
completedirs
completekey
completely
completenames
completeness
completer
completes
completing
completion
completions
complex
complexity
compliance
compliant
complicated
complication
complies
comply
complying
component
components
compose
composed
composing
composite
composition
compound
comprehension
comprehensions
comprehensive
compress
compressed
compressing
compression
compresslevel
compressobj
compressor
comprised
comprises
compromise
compromised
comps
compton
comptype
computation
computations
compute
computed
computer
computers
computes
computesecret
computing
comspec
con
concat
concatenate
concatenated
concatenates
concatenating
concatenation
concatenations
concats
conceal
conceivable
conceivably
concept
concepts
conceptual
conceptually
concern
concerned
concerning
concerns
concetation
concise
concision
conclude
concluded
concluding
concrete
concurrency
concurrent
concurrently
cond
condense
condensed
condition
conditional
conditionally
conditionals
conditioned
conditions
conduct
cone
conectado
conf
confer
confidence
confidential
config
configchanges
configdialog
configfile
confighandler
configparser
configs
configtype
configuation
configurable
configuration
configurations
configurator
configure
configured
configures
configuring
confir
confirm
confirmation
confirmed
confirming
conflict
conflicted
conflicting
conflicts
conflictstyle
conform
conformance
conformant
conforming
conforms
confstr
confusable
confuse
confused
confuses
confusing
confusingly
confusion
cong
congestion
conjugate
conjunction
conn
connaborted
connect
connected
connecting
connection
connectioncls
connectionpool
connections
connectivity
connector
connects
connectstate
connecttimeout
connell
connlost
connolly
connor
conns
conor
conordavenport
conover
cons
consant
consectetur
consecutive
consensus
consequence
consequences
consequential
consequently
conservative
consider
considerable
considerably
consideration
considerations
considered
considering
considers
consist
consistency
consistent
consistently
consisting
consists
consolas
console
consolelogdata
consoleoptions
consolidate
consolidated
consolidation
conspicuously
const
constant
constantine
constantly
constants
constexpr
constistency
constituencies
constitute
constitutes
constrain
constrained
constrains
constraint
constraints
construct
constructed
constructing
construction
constructions
constructor
constructoropt
constructors
constructs
construed
consts
consult
consulted
consulting
consumable
consume
consumed
consumer
consumers
consumes
consuming
consumption
cont
contact
contacted
contacting
contacts
contain
contained
container
containerised
containerof
containers
containing
containment
contains
contaminate
contaminating
content
contenthandler
contention
contentmanager
contents
contenttype
contest
context
contextified
contextify
contextifying
contextj
contextlib
contextmanager
contexto
contexts
contextual
contextvar
contextvars
contiguous
continual
continually
continuation
continuations
continue
continued
continues
continuing
continuous
continuously
contra
contract
contraction
contractual
contradict
contradiction
contradicts
contrarily
contrary
contrast
contrasting
contravariant
contrib
contribute
contributed
contributes
contributing
contribution
contributions
contributor
contributors
contrived
control
controlcode
controllable
controlled
controller
controlling
controls
controltype
controversial
contructor
conv
convenience
convenient
conveniently
convention
conventional
conventions
convergence
conversation
conversely
conversion
conversions
convert
converted
converter
converters
converting
convertingdict
convertinglist
convertkey
converts
convey
conveyance
conveyed
conveying
conveys
convince
convoluted
cook
cookbook
cooked
cookie
cookiefile
cookiejar
cookielib
cookiepolicy
cookies
cooking
cool
coombs
coon
cooper
cooperation
coord
coordinate
coordinates
coordinating
coordination
coordinator
coords
cop
copa
cope
copied
copier
copies
coprod
copy
copybuffer
copybytesfrom
copyedit
copyfile
copyfileobj
copyfilesync
copying
copyleft
copymode
copyproperties
copyreg
copyright
copyrightable
copyrighted
corbi
core
corefoundation
corepack
cores
coreservices
corey
coreybeaumont
cork
corked
corman
cornacchia
corner
corners
coro
corona
coroutine
coroutines
coroutinetype
corporation
correct
corrected
correcting
correction
corrections
correctly
correctness
corrects
correlate
correlation
correspond
correspondence
corresponding
corresponds
corret
corretg
corrupt
corrupted
corrupting
corruption
corrupts
corsi
cortez
cory
cos
cosh
cosmetic
cost
costa
costly
costs
cotin
cotton
could
couldn
council
count
countdown
counted
counter
counterclaim
countermand
countermanded
counterpart
counterparts
counters
counterset
counting
countreset
countries
country
counts
counttestcases
couple
courier
course
court
courtesy
courtney
courts
cousin
cov
covariant
";

pub const WORDS_05: &'static str = "covenant
cover
coverage
coveragedir
coveragerc
coveralls
covered
covering
coverity
covers
covington
cowper
cox
cpan
cpandrews
cpe
cphost
cpickle
cpio
cppflags
cpplint
cprofile
cpsync
cpu
cpuinfo
cpuprofile
cpus
cpuusage
cpython
cquote
craft
crafted
craig
cram
cran
crankshaft
crap
crash
crashed
crasher
crashes
crashing
crawford
crawl
crbug
cre
creat
create
createcipher
createcipheriv
createclass
createcommand
createcomment
createcontext
created
createdecipher
createdeflate
createdocument
createecdh
createelement
createfile
creategzip
createhash
createhmac
createhook
createjob
createlock
createparams
createpipe
createplatform
createprocess
createrequire
creates
createserver
createsocket
createtextnode
createtracing
createverify
createxyz
creating
creation
creations
creative
creator
cred
credential
credentials
credit
credits
creds
creedon
creisle
crept
crime
crippling
cripps
criss
cristian
criteria
criterion
critical
crlfdelay
cron
crop
cropped
cropping
cross
crossed
crosses
crossing
crucial
crude
cruft
crummey
cruz
cry
crying
crypo
crypt
cryptic
crypto
cryptographic
cryptography
cryptojob
cryptokey
cryptopro
cryptostream
crystal
csi
csize
csock
cssclass
cstringio
csvreader
csvwriter
ctags
cte
ctest
ctext
ctime
ctip
ctor
ctors
ctype
ctypes
cu
cucumber
culprit
cultural
culture
cumbersome
cumtime
cumulative
cumulatively
cuni
cup
cupcakes
cur
curdir
cure
curio
curious
curl
curline
curlm
curlopt
curly
curnode
curr
curran
currency
current
currentbp
currentframe
currentid
currentkeys
currently
currenttarget
currenttheme
currentthread
currenttime
currentversion
curselection
curses
cursor
cursorto
curve
curves
custard
custom
customarily
customary
customconsole
customer
customermodel
customers
customevent
customfds
custominspect
customizable
customization
customizations
customize
customized
customizing
customlexer
customlist
customrun
customsettings
cut
cutoff
cuts
cutting
cuva
cvar
cve
cvename
cvenum
cves
cvetko
cvsimport
cvsroot
cvsserver
cwe
cwi
cwidth
cword
cxreg
cxy
cy
cyan
cybertrust
cycle
cycles
cyclic
cygwin
cypher
cyren
cyril
cyrille
cyrillic
cyrus
cython
cythonlexer
czech
da
daa
daab
daaca
daad
daae
daaf
dab
daba
dabb
dabc
dabd
dabe
dac
daca
dacc
dad
dada
dadb
dadc
dadd
dade
dae
daeb
daec
daed
daef
daemon
daemonic
daemonising
daemons
daern
daeyeon
daf
dafb
dafc
dafd
dafe
daff
dagger
dague
daguerre
dai
daijiro
daiki
daily
dale
dalgaard
dalton
damage
damages
damian
damien
damjan
dan
danbev
danbrani
dance
dancer
dancers
dancing
danger
dangerous
dangers
dangle
dangling
daniel
daniele
danielle
danielleadams
daniellin
daniels
daniil
danish
daniyal
danny
danu
daoming
daomingq
dapena
dara
darai
darcs
darcy
dario
dark
darkbg
darkripper
darling
darnell
darshan
dart
darwin
daryl
das
dascalescu
daschevici
dasgupta
dash
dashdash
dashed
dashes
dashv
dat
data
database
databases
dataclass
dataclasses
datacloneerror
datacollected
datadog
dataerror
dataflow
datagram
datahandler
datamodel
datasend
dataset
datasync
datatracker
datatype
datatypes
dataurl
dataview
date
datefmt
datenow
dates
datestamp
datetime
datetimeformat
dav
dave
david
davidcai
davidson
davis
davisjam
davkor
daware
dawson
dax
day
daylight
daynames
days
daza
dba
dbac
dbachko
dbad
dbae
dbaf
dbapi
dbba
dbca
dbce
dbda
dbde
dbe
dbec
dbed
dbee
dbef
dbfce
dbfe
dca
dcab
dcad
dcae
dcba
dcbe
dcca
dcce
dccfe
dcda
dcde
dcdee
dce
dcea
dceb
dced
dcee
dcef
dcefa
dcfe
dcharbonnier
dcheck
dchecks
dcmake
dco
dcommit
dcpos
dcposch
dda
ddaa
ddab
ddac
ddad
ddae
ddaf
ddagger
ddba
ddbca
ddbe
ddce
ddcommand
dde
ddea
ddeb
dded
ddee
ddef
ddfa
ddfe
ddir
de
dea
deaa
deab
deac
deactivate
deactivated
deactivates
dead
deadline
deadlock
deadlocked
deadlocking
deadlocks
deae
deaf
deal
dealing
dealings
dealloc
deallocated
deallocation
deals
dealt
dean
death
deb
debadree
debb
debc
debcc
debd
debe
debf
debhelper
debian
debounce
debt
debug
debugcommand
debuggability
debugged
debuggee
debugger
debuggers
debugging
debuglevel
debuglog
debugobj
debugoptions
debugport
debugprocess
debugstream
debugstreamobj
debundled
dec
deca
decapitalize
decc
dece
december
decent
decf
decharter
decide
decided
decides
deciding
decimal
decimals
decipher
decipheriv
decision
decisions
deckard
decker
deckers
decl
declaration
declarations
declare
declared
declares
declaring
decline
declining
declname
decls
deco
decodable
decode
decodebytes
decoded
decodeerror
decoder
decoders
decodes
decodestring
decodestrings
decodeutf
decoding
decomp
decomposed
decompress
decompressed
decompression
decompressobj
decompressor
decorate
decorated
decorating
decoration
decorative
decorator
decorators
decouple
decrease
decreased
decreases
decreasing
decref
decrement
decremented
decrementing
decrements
decrypt
decrypted
decrypting
decryption
ded
deda
dedb
dedd
dede
dedent
dedents
dedf
dedicated
dedications
deduce
dedup
dedupe
dedupehistory
deduplicate
dee
deea
deeaf
deeb
deed
deedeeg
deef
deemed
deep
deepbind
deepcopy
deepen
deepequal
deeper
deeply
deepthi
deepti
def
defacto
default
defaultcfg
defaultcontext
defaultdict
defaulted
defaulteval
defaulthandler
defaulting
defaultoptions
defaultport
defaultresolve
defaults
defb
defe
defeat
defeating
defeats
defect
defective
defects
defense
defenses
defensive
defensively
defer
deferred
deferring
defers
defertoconnect
deff
define
definecomand
definecommand
defined
definegetter
defineproperty
defines
defining
definite
definitely
definition
definitions
definitive
deflake
deflate
deflated
deflateraw
deflating
defpath
defproperty
defrag
defs
defunct
degas
degenbaev
degenerate
degradation
degradations
degraded
degree
deiconify
deinit
dejavu
dejon
del
delapouite
delattr
delay
delayed
delaying
delays
delbono
dele
delegate
delegated
delegates
delegating
delegation
delegator
delegators
delete
deletecommand
deleted
deleteme
deleter
deletes
deleting
deletion
deletions
deliberate
deliberately
delim
delimit
delimited
delimiter
delimiters
delimiting
delims
delint
delitem
deliver
delivered
delivery
delphi
delphilexer
delta
deltas
deltification
delvedor
demand
demo
demonstrate
demonstrated
demonstrates
demonstrating
demonstration
demoted
dempsey
demultiplexer
den
denbroeder
deng
denial
denials
denicola
denied
denis
dennis
denny
deno
denominated
denominator
denominators
denote
denoted
denotes
denoting
density
deny
denying
denylist
denys
deokjin
deokjinkim
deopt
deoptimizing
deopts
dep
department
departure
depend
dependabot
dependant
depended
dependence
dependencies
dependency
dependent
dependents
depending
depends
deploy
deployed
deploying
deployment
deployments
depot
deprecate
deprecated
deprecating
deprecation
deprecations
deprive
deps
depth
depths
deque
dequeue
der
deref
dereference
dereferenced
dereferences
dereferencing
deregister
derek
derevianchenko
derivation
derivative
derivatives
derive
derivebits
derived
derivedkey
derivekey
derives
deriving
des
desc
descamps
descend
descendant
descendants
descending
descr
describe
described
describes
describing
description
descriptions
descriptive
descriptor
descriptors
descs
deselect
deser
deserialize
deserialized
deserializing
deserve
design
designate
designated
designation
designations
designators
designed
designer
designs
desirable
desire
desired
desktop
despite
dest
destcpu
destdir
destfile
destination
destinations
destroy
destroyed
destroying
destroyparam
destroys
destroysoon
destruct
destructing
destruction
destructively
destructor
destructure
destructured
destructuring
dests
detach
detached
detaches
detaching
detail
detailed
detailing
detailled
details
detailyang
detect
detected
detecting
detection
detector
detects
determination
determine
determined
determines
determining
determinism
deterministic
detrimental
deutscher
dev
devanagari
devecchi
devel
develop
developed
developer
developers
developing
development
deverick
devguide
deviate
deviates
deviation
deviations
device
devices
devin
devnexen
devnull
devon
devopts
devost
devoted
devpoll
devs
devsnek
devtools
devtoolset
dex
dexter
dexterleng
dfa
dfaa
dfab
dfabulich
dfac
dfae
dfaf
dfba
dfbe
dfca
dfce
dfda
dfde
dfe
dfea
dfeb
dfec
dfed
dfee
dfef
dffa
dffe
dfile
dglexer
dgram
dgrams
dguo
dhe
dhennin
dhparam
di
diacritical
diaeresis
diag
diagnose
diagnosed
diagnoses
diagnosing
diagnosis
diagnostic
diagnostics
diagram
dialect
dialog
dialogs
dialogue
dialogues
diameter
diamond
diamondsuit
diana
diaz
dic
dice
dicearr
dickey
dickinson
dict
dictates
dictcache
dictconfig
";

pub const WORDS_06: &'static str = "dictionaries
dictionary
dictproxy
dicts
dicttable
dicttreeitem
did
didn
die
died
diego
dies
diff
diffcore
differ
difference
differences
different
differential
differentiate
differentiates
differently
differing
differs
difficult
difficulty
diffie
diffiehellman
difflib
diffs
diffstat
difftool
dig
digest
digests
digestupdate
digging
digicert
digit
digital
digits
digraph
digs
dim
dimension
dimensional
dimensions
dimitri
dimitris
dimmed
dims
dinwoodie
diosney
dir
dirceu
direct
directed
directedgraph
directing
direction
directional
directions
directive
directives
directly
director
directories
directory
directs
directurl
dirent
dirfd
dirfile
dirinfo
dirk
dirlist
dirmode
dirname
dirnames
dirpath
dirs
dirstat
dirtiness
dirty
dirxml
dis
disable
disabled
disables
disabling
disagree
disagreement
disagreements
disallow
disallowed
disallows
disambiguate
disambiguated
disambiguating
disambiguation
disappear
disappeared
disappearing
disappears
disassemble
disassembled
disassembler
disassembly
disassociates
disaster
disastrous
disc
discard
discarded
discarding
discards
discernible
disclaim
disclaimed
disclaimer
disclaimers
disclaiming
disclaims
disclosed
disclosure
disclosures
disconnect
disconnected
disconnecting
disconnection
disconnects
discord
discourage
discouraged
discourse
discover
discoverable
discovered
discovery
discrepancy
discrete
discriminatory
discuss
discussed
discussing
discussion
discussions
disk
disks
dismiss
dismissed
dismissive
disney
disp
disparity
dispatch
dispatched
dispatcher
dispatches
dispatchevent
dispatching
display
displayed
displayerrors
displayhook
displaying
displaylines
displayname
displaynames
displayof
displayprompt
displays
disposable
disposal
dispose
disposed
disposing
disposition
dispositions
disrupt
disruptive
dissociate
dissolution
dist
distance
distant
distclean
distinct
distinction
distinctions
distinctive
distinfo
distinguish
distinguished
distinguishes
distinguishing
distlib
distname
distribute
distributed
distributes
distributing
distribution
distributions
distributor
distributors
distro
distros
dists
disttypedir
disturb
distutils
dit
ditch
ditto
div
diverged
divergence
divergent
diverges
diverse
diversity
divide
divided
divider
divides
dividing
divisible
division
divisionbyzero
divlo
divmod
divya
divyanshu
dixit
django
dle
dlerror
dlineinfo
dllhandle
dlloads
dlopen
dmabupt
dmitriy
dmitry
dnalborczyk
dnlup
dnsname
dnsnames
dnspromises
do
dobbertin
doc
docbook
docclass
docfix
docformat
dock
docker
dockerfile
docopen
docroutine
docs
docserve
docserver
docstring
docstrings
doctag
doctest
doctests
doctool
doctor
doctype
document
documentation
documentations
documented
documenting
documentls
documents
documenttype
docutils
dodev
doenges
does
doesn
doesnotmatch
doesnotreject
doesnotthrow
doesnt
dog
dohse
doi
doichris
doing
doit
dolapo
dollar
dolor
dolore
dom
domain
domainexit
domains
domainto
domaintoascii
domenic
domexception
dominates
dominic
dominican
dominykas
domreg
domstring
don
donahue
donald
done
donggeon
donor
donovan
dont
dontcallbackx
door
doquery
doraise
dos
doseq
dosomething
dostime
dot
dotall
dotdot
doteq
dotfile
dotfiles
dotless
dotrywrite
dots
dotted
double
doubles
doubling
doubly
doubt
doubtful
doug
douglas
douglass
doulcet
dove
dower
down
downarrow
downcase
downgrade
downgraded
download
downloadcolumn
downloaded
downloader
downloading
downloads
downside
downstream
downwards
dowrite
doyle
dpaulino
dpi
draft
drafter
drag
dragged
dragging
dragon
dragonflybsd
dragto
drain
drained
draining
drains
drake
dramatically
drane
drastically
draszik
draw
drawing
drawings
drawn
draws
drew
drexler
dribble
dries
drift
drive
driven
driver
drivers
drives
drop
dropdown
dropmembership
dropped
dropping
drops
dropwhile
drown
drownattack
druotic
dry
drysdale
dsa
dsaencoding
dscherer
dsync
dtdhandler
dtor
dtors
dtrace
du
dual
duanpengfei
dubien
dubious
dublication
dublin
dubnium
duck
due
dukas
dumb
dumbdbm
dumitru
dummy
dummydestroy
dummyeditwin
dump
dumped
dumpeventtime
dumping
dumps
dunavan
duncan
dunder
dunkel
dup
dupfd
duphandle
duplex
duplexbase
duplexify
duplexpair
duplicate
duplicated
duplicates
duplication
dups
dupsocket
duque
durable
duration
durations
during
dusan
dustinnewman
duties
duty
duy
dwelling
dwflags
dwim
dwimmed
dwims
dword
dwsize
dy
dyatlov
dying
dylan
dyld
dylib
dylson
dyn
dynamic
dynamically
dyndns
dynload
dynoption
dynoptionmenu
ea
eaa
eaab
eaac
eaad
eaae
eaaf
eab
eaba
eabb
eabd
eac
eacb
eacc
eacces
eacd
eace
eacf
each
ead
eada
eadc
eadd
eaddrinuse
eaddrnotavail
eade
eady
eae
eaea
eaeac
eaeb
eaec
eaef
eaf
eafc
eafd
eafe
eagain
eager
eagerly
eai
ear
earlier
earliest
early
earlyhintslink
earth
ease
easier
easiest
easily
east
eastern
eastwood
easy
eat
eats
eb
eba
ebaa
ebab
ebac
ebad
ebadf
ebae
ebaf
ebb
ebba
ebbc
ebbd
ebbed
ebbf
ebc
ebca
ebcc
ebcd
ebcf
ebd
ebda
ebdb
ebdc
ebdd
ebe
ebeb
ebec
ebed
ebee
ebef
ebf
ebfa
ebfb
ebfe
ebickle
ebnf
ebpf
ebusy
eby
ec
eca
ecaa
ecab
ecac
ecae
ecanceled
ecb
ecba
ecbb
ecbc
ecbd
ecbe
ecbf
ecbfb
ecc
eccb
eccd
ecce
eccf
ecd
ecdb
ecdc
ecdf
ecdh
ecdhcurve
ecdhe
ecdsa
ece
ecea
eceac
eceb
ecec
eced
ecee
ecef
ecf
ecfb
ecfc
ecfe
ecff
echild
echo
echoing
ecki
ecma
ecmascript
ecmaversion
ecol
econnaborted
econnrefused
econnreset
ecosystem
ecparam
ecuador
ed
eda
edaa
edad
edaf
edb
edba
edbb
edbc
edbe
edbf
edc
edca
edcc
edd
edda
eddb
eddc
edde
eddf
eddsa
eddy
ede
edea
edead
edeb
edec
edece
eded
edee
edef
edf
edfc
edfd
edff
edgarzapeka
edge
edgecase
edges
edipartyname
edit
editable
editables
edited
editfile
editing
edition
editline
editmsg
editor
editorconfig
editormode
editors
editorwindow
edits
editwin
edquot
edsadr
edt
edu
eduard
edward
edy
ee
eea
eeaa
eeab
eeac
eead
eeae
eeaeb
eeaf
eeb
eeba
eebb
eebc
eebe
eebec
eec
eeca
eecb
eecbd
eecc
eeccd
eece
eecs
eed
eedad
eedd
eede
eef
eefa
eefc
eefe
eeff
eeffgg
eexist
ef
efa
efaa
efab
efac
efadf
efae
efaea
efaf
efb
efba
efbe
efbf
efc
efca
efcb
efcd
efce
efd
efda
efdb
efdc
efdeb
efdf
efe
efea
efeb
efec
efee
efef
efefe
eff
effa
effb
effc
effe
effect
effected
effective
effectively
effectiveness
effectless
effects
efficiency
efficient
efficiently
effort
efforts
eg
egg
eggs
egor
egypt
eh
ehlo
ehsan
ei
eiclass
eidata
eight
eileen
einat
einprogress
eintr
einval
eio
eisdir
eisinger
either
eiusmod
eject
ejecting
ejose
ek
el
elaborate
elad
eladkeyshawn
elapsed
elapses
eld
electron
electronic
electronjs
elects
elegant
elem
element
elementinfo
elementpath
elements
elementtree
elems
elevate
elevated
elf
elffile
eli
elian
eliaz
elide
elif
elifantiev
eligible
eliminate
eliminated
eliminates
eliminating
elimination
elisp
elit
elixir
elliott
ellipses
ellipsis
ellipsistype
elliptic
ellis
elm
eloop
elp
elric
else
elseif
elsewhere
elsir
elt
elvis
em
emachine
emacs
email
emailing
emailmessage
emails
emanuel
emanuele
emasuriano
emax
embargo
embargoed
embarrassing
embed
embedded
embedder
embeddergraph
embedders
embedding
embedtest
embodied
embrey
emeriti
emeritus
emfile
emfilewait
emil
emily
emin
emirates
emirgoren
emission
emit
emitafter
emitbefore
emitbeforeexit
emitclose
emitdestroy
emitexit
emits
emitted
emitter
emitters
emitting
emitwarning
eml
emma
emmanouil
emmanuel
emoji
emojis
emojivariant
empathy
emph
emphasis
emphasize
emplace
employed
employee
employer
emptied
empties
emptively
empty
emptyauth
emptying
emptynodelist
emptypoolerror
emptyset
emptystring
emscripten
emssage
emu
emulate
emulated
emulates
emulating
emulation
emulator
emulators
en
enable
enabled
enablepush
enables
enabletrace
enabling
ename
enc
encapsulate
encapsulated
encapsulates
encapsulating
encapsulation
encircle
enclose
enclosed
encloses
enclosing
encodable
encode
encodeauth
encodebytes
encoded
encodeinto
encoder
encoders
encodes
encodestr
encodestring
encoding
encodings
encounter
encountered
encountering
encounters
encourage
encouraged
encouragement
encourages
encrypt
encrypted
encrypting
encryption
encrypts
end
endcdata
endchar
endchars
enddocument
";

pub const WORDS_07: &'static str = "enddtd
ended
endelement
endelementns
endheaders
endian
endianness
endidx
endif
ending
endings
endl
endless
endline
endmarker
endorse
endorsement
endorsements
endpoint
endpoints
endpos
ends
endsinanumber
endstream
endswith
endtag
endtime
endwin
endwritablent
enero
enfile
enforce
enforceable
enforced
enforcement
enforces
enforcing
eng
engagement
engine
engineering
engines
english
enhance
enhanced
enhancement
enhancements
enhancing
enjoy
enobufs
enodata
enoent
enomem
enormous
enospc
enotconn
enotdir
enotempty
enotfound
enotsock
enotsup
enough
enoughtestcpu
enoughtestmem
enq
enqueue
enqueued
enrich
enroll
ensure
ensured
ensurenl
ensurepip
ensures
ensuring
ent
entdig
enter
entered
entering
enterprise
enterprises
enters
enterwith
entire
entirely
entirety
entities
entitled
entitlements
entity
entityresolver
entrancy
entrant
entref
entries
entropy
entry
entrycget
entryconfig
entryconfigure
entrypoint
entrypoints
entrytype
entrytypes
enum
enumerability
enumerable
enumerate
enumerated
enumerates
enumerating
enumeration
enummeta
enums
env
envelope
environ
environb
environment
environmental
environments
envname
envvar
envvars
eof
eoferror
eofhook
eofs
eol
eols
eopnotsupp
eos
eot
eoverflow
eow
ep
eperm
ephem
ephemeral
epilog
epilogue
epipe
epoch
epoll
eproto
eprototype
eps
epsilon
eq
equal
equality
equally
equals
equiv
equivalent
equivalently
equivalents
er
era
erase
erasing
erb
erbium
ere
erez
erf
eric
erich
erick
erickson
erickwendel
erik
erin
erofs
err
errcheck
errcode
errmap
errmsg
errname
errno
errnoexception
errnos
erroneous
erroneously
error
errored
errorhandler
erroring
errorlevel
errormessage
errormonitor
errormsg
errorname
erroronexist
errors
errortoken
errpipe
errsslinternal
erwinwahyura
es
esbb
esc
escalate
escalation
escape
escaped
escapeinside
escapes
escaping
eschright
eskew
eslint
eslintignore
eslintrc
esm
esmloader
esmodule
esmodules
esoteric
espa
especially
espipe
esr
essehemy
essence
essential
essentially
esser
est
establish
established
establishes
establishing
esteban
estimate
estimated
estimation
estiven
estliberitas
estrada
et
eta
etag
etags
etc
eth
ethan
ethical
ethiopia
etienne
etree
etw
etx
etype
eu
euc
eugene
eugeneo
eui
euro
europe
european
ev
eval
evalerror
evalfuncs
evals
evalscript
evaluate
evaluated
evaluates
evaluating
evaluation
evaluations
evaluator
evan
evanlucas
evans
even
evenly
event
eventemitter
eventemitters
eventlistener
eventloop
eventloopdelay
eventlooputil
eventname
eventnames
eventqueue
events
eventscount
eventsource
eventtarget
eventtuple
eventtype
eventual
eventually
ever
everett
everitt
everseen
eversole
every
everybody
everyday
everyone
everything
everywhere
evict
eviction
evidence
evil
evolve
evolving
evp
evt
ew
ewouldblock
ex
exact
exactly
examination
examine
examined
examining
example
examples
exc
exceed
exceeded
exceeding
exceeds
excel
excellent
except
excepthook
excepthookargs
excepting
exception
exceptional
exceptiongroup
exceptions
excess
excessive
excessively
exchange
exchanges
excinfo
excinst
excl
exclamation
exclude
excluded
excludenetwork
excludes
excludesfile
excluding
exclusion
exclusions
exclusive
exclusively
excs
exctb
exctype
excuse
exe
exec
execargv
execbinding
execfile
execfilesync
execl
execlp
execpath
execption
execsync
executable
executables
execute
executed
executes
executing
execution
executions
executive
executor
execv
execve
execvp
execvpe
exempt
exename
exercise
exercising
exhaust
exhausted
exhaustion
exhaustive
exhibit
exist
existance
existed
existence
existent
existing
exists
existssync
exit
exitcode
exited
exitfunc
exithook
exiting
exitmsg
exitpriority
exits
exitstack
exlipse
exoego
exotic
exp
expand
expandable
expanded
expanding
expands
expandtabs
expanduser
expandvars
expansion
expansions
expat
expatbuilder
expatparser
expect
expectation
expectations
expected
expecting
expects
expectserror
expectwarning
expendable
expense
expensive
experience
experienced
experiment
experimental
expertise
expiration
expire
expired
expires
expiring
expiry
explain
explained
explaining
explains
explanation
explanations
explanatory
explicit
explicitly
explicity
explode
exploit
exploitable
exploited
exploits
exploration
explore
explorer
exploring
expm
exponent
exponential
exponents
export
exported
exportentry
exporting
exportkey
exportnames
exports
expose
exposed
exposes
exposing
exposure
exposures
expr
express
expressed
expresses
expressing
expression
expressions
expressively
expressly
exprs
ext
extend
extended
extending
extends
extensible
extension
extensionless
extensionname
extensions
extensive
extensively
extent
extn
extname
extpage
extra
extract
extractall
extracted
extractfile
extracting
extraction
extracts
extradata
extraneous
extras
extreme
extremely
exts
extsep
exttype
eye
eyeballs
eyes
ezequiel
fa
faa
faac
faae
fab
faba
fabb
fabc
fabd
fabf
fabian
fabio
fabrice
fabs
fabulich
fac
facb
faccessat
face
facf
facilitate
facilitates
facilities
facility
facing
fackler
fact
factor
factored
factories
factors
factory
facundo
fad
fada
fadb
fadc
fade
fadf
fae
faea
faeb
faec
faf
fafa
fafb
fafbd
fafd
fafe
faff
fahnestock
fail
failed
failfast
failing
failobj
fails
failure
failures
fair
fairly
faith
faithfully
faiz
fake
faked
fall
fallback
fallbacks
falling
falls
fallthrough
false
falsely
falsey
falsy
familiar
families
family
fan
fancier
fancy
fancyurlopener
fancyvrb
fansworld
faq
far
farazmand
farias
farnung
farrell
fashion
fast
fastbuffer
fastcgi
faster
fastest
fastimport
faststringkey
fat
fatal
fatalerror
fatalexception
fault
faultcode
faulthandler
faults
faultstring
faulty
favor
favorite
favour
fax
fba
fbaa
fbab
fbac
fbade
fbaf
fbafe
fbba
fbbe
fbcef
fbda
fbe
fbea
fbeab
fbeb
fbec
fbfa
fbfeb
fca
fcaa
fcab
fcad
fcae
fcaf
fcba
fcca
fcda
fcde
fce
fceaa
fceb
fcec
fced
fcee
fcef
fcfa
fcfde
fchmod
fchmodat
fchown
fchownat
fchownsync
fcre
fda
fdaa
fdab
fdad
fdae
fdaf
fdatasync
fdatasyncsync
fdba
fdbe
fdce
fdda
fddba
fdde
fde
fdea
fdec
fdedd
fdef
fdel
fdfa
fdfaa
fdict
fdisk
fdopen
fdopendir
fe
fea
feaa
feab
feac
fead
feae
feaf
fear
fearful
fearing
feasible
feature
featured
features
feb
feba
febc
febd
febfbf
february
fec
fecad
fecc
fece
fecf
fed
feda
fedd
federal
federico
fedf
fediuc
fedor
fedora
fee
feed
feedback
feeder
feeding
feedparser
feeds
feel
fees
fef
fefa
fefb
fefd
fefe
feff
feldman
felipe
felix
fell
felt
fence
fenced
feng
fengmk
ferdi
fermium
fernando
feross
ferrando
ferror
fetch
fetched
fetches
fetching
few
fewer
ffa
ffaa
ffab
ffad
ffadf
ffaf
ffba
ffca
ffce
ffe
ffea
ffec
ffed
ffee
ffef
ffefb
ffi
fflush
fget
fhinkel
fhqwhgads
fi
fiddling
field
fielding
fieldname
fields
fifo
fifth
fiftharg
fifty
figure
figures
fiji
file
fileapi
fileattr
filecache
filecmp
fileconfig
filecookiejar
filed
filedata
filedialog
fileencoding
filefinder
filehandle
filehandler
fileio
fileline
filelist
fileloader
filemap
filemetadata
filemode
filename
filenames
filenko
fileno
fileobj
fileobject
fileop
fileoperator
filepath
filepos
filepost
fileproxy
fileread
filereader
files
filesize
filesizecolumn
filespec
filestream
filesystem
filesystemread
filesystems
filetreeitem
filetuple
filetype
filetypes
fileurl
fileurltopath
filewrapper
filip
fill
fillarg
fillcolor
filled
filling
fills
fillvalue
film
filt
filter
filtered
filterer
filtererror
filterfalse
filtering
filtername
filters
filterwarnings
fin
final
finalization
finalize
finalized
finalizer
finalizers
finalizes
finalizing
finally
finaltol
find
findall
findclass
finddoc
findentry
finder
finders
findfile
findfiles
finding
findings
finditer
findlinestarts
findorigin
findpath
finds
findsourcemap
findtext
findvar
fine
finer
finger
fingerprint
fingerprints
fingers
finish
finishcommand
finished
finishes
finishing
finite
finland
finn
fips
fipsmode
fira
fire
fired
firedfox
firefox
fires
firewall
firing
first
firstchild
firstline
firstlineno
firstweekday
firstword
firwall
fischer
fish
fisher
fishrock
fit
fitness
fits
five
fix
fixable
fixdoc
fixed
fixer
fixes
fixing
fixnewlines
fixoptions
fixresult
fixtiresdir
fixtres
fixture
fixturedir
fixtures
fixturesdir
fixup
fixups
fixwordbreaks
flag
flagged
flags
flake
flakes
flakey
flakiness
flaky
flakyness
flanagan
flandre
flarna
flash
flat
flatmap
";

pub const WORDS_08: &'static str = "flatten
flattened
flattening
flavor
flavors
flaw
flawed
fledged
fleischer
flex
flexibility
flexible
flexibly
flight
flip
flips
flist
float
floating
floatnumber
floatpart
floats
flood
floor
floordiv
flores
florian
florin
flow
flowing
flows
flush
flushed
flushes
flushheaders
flushing
flushlevel
flushonclose
flushoutput
fly
fmean
fmizzell
fmter
fname
fnmatch
fnmatchcase
fno
fo
foaf
foafssl
fobj
focus
focused
focusin
focusout
fold
folded
foldedcase
folder
folders
folding
folks
follow
followed
following
followlinks
follows
followtags
folta
fomichev
font
fontaine
fontconfig
fontlist
fontpage
fonts
fontsize
foo
foobar
food
foofile
fooled
foot
footer
footnotes
footprint
footprints
fopen
fopts
for
forall
forbid
forbidden
forbidding
force
forced
forcefully
forcelist
forces
forcibly
forcing
fore
foreach
foreground
foreign
forever
forget
forgetinput
forgiving
forgot
forgotten
fork
forkawarelocal
forked
forker
forkers
forking
forkingpickler
forkpty
forks
forkserver
form
formal
formalize
formally
format
formatcontrol
formatdate
formaterror
formatmessage
formatparam
formatregion
formats
formatstring
formatted
formatter
formatters
formattime
formatting
formatvalue
formatwarning
formdata
formed
former
formerly
forming
forms
formula
formulating
forrest
forth
fortin
fortran
forums
forward
forwarded
forwarding
forwardref
forwards
found
foundation
fountain
four
fourth
fox
foxxyz
fpath
fpic
fprintf
fpu
frac
fraction
fractional
fractions
frag
fragile
fragment
fragmentation
fragments
frame
framed
frameerror
frameproxy
framer
frames
frametype
framework
frameworks
framing
fran
france
francesco
francis
francisco
francois
frank
franklin
frankqiu
franziska
fraser
fread
fred
frederic
fredrik
free
freebsd
freed
freedesktop
freedom
freedoms
freeing
freelist
freely
freemem
frees
freesockets
freevars
freeware
freeze
freezes
freezing
fregion
french
freopen
frequency
frequent
frequently
fresh
freshly
freshness
fri
friction
friday
friedensohn
friedly
friendly
friends
frolov
from
fromaddr
fromenc
fromfd
fromfile
fromhex
fromisoformat
fromjust
fromkeys
fromlist
frommaybe
fromname
fromordinal
fromshare
fromstring
fromtimestamp
fromutc
fromweb
front
frontend
frontends
frontmatter
frony
frotz
frozen
frozenimporter
frozenset
frozensets
frsize
fruit
frustrating
fsckobjects
fsdecode
fseek
fsencode
fset
fsevents
fseventwrap
fsize
fsmonitor
fspath
fspromises
fsreadstream
fsreqcallback
fsreqpromise
fsreqwrap
fstab
fstack
fstat
fstatat
fstatsync
fstatvfs
fstring
fswatcher
fswritefd
fsync
fsyncsync
ftphandler
ftplib
ftruncate
ftruncatesync
fu
fudge
fuentes
fulfill
fulfilled
fulfilling
fulfills
full
fuller
fullmatch
fullname
fullpath
fully
fumiya
fun
func
funcdef
funcid
funcname
funcs
funct
function
functional
functionality
functionally
functiondef
functioning
functions
functiontable
functiontest
functiontype
functools
functype
fundamental
fundamentally
funes
funky
funny
fur
furnished
furstenheim
further
furthermore
furukawa
fuse
fut
futimens
futimes
future
futureproof
futures
futurewarning
fuzz
fuzzer
fvisibility
fwork
fy
fyi
ga
gaara
gabriel
gabriela
gabriele
gae
gaelle
gagandeep
gagern
gai
gaierror
gain
gained
gaining
gains
gallacher
gallagher
gallium
game
gamma
gang
ganguly
gao
gap
garbage
garbled
garcia
gardner
gareth
garfield
garrett
garrik
garygsc
gas
gasc
gascon
gasparyan
gate
gateway
gather
gathered
gaucher
gauss
gavant
gave
gced
gclient
gcovr
gcrypt
gdams
gdict
ge
gear
gee
geek
geeksilva
geir
geisendo
gem
gen
gender
gene
general
generalize
generalized
generally
generalname
generate
generated
generatekey
generatekeys
generateprime
generates
generating
generation
generator
generatorexit
generators
generatortype
generic
genericalias
generically
genericpath
generics
generous
geng
gengjiawen
gentilhomme
gentle
genuine
genv
geoffrey
geoffreybooth
geographical
geom
geometric
geometry
georg
george
georgian
gerfen
gergely
gerges
gerhard
german
germany
gerrit
gertzfield
ges
get
getabsfile
getaddresses
getaddrinfo
getall
getasset
getassetasblob
getasyncid
getatime
getattr
getattribute
getauthtag
getboolean
getbuffer
getbytestream
getcalls
getcipher
getcipherinfo
getciphers
getciphervalue
getclass
getclasstree
getcolordepth
getcomments
getcomptype
getconnections
getconsolemode
getcontext
getcookedpat
getcorekeys
getcpuinfo
getcpuprofiler
getctime
getcurrent
getcursorpos
getcurves
getcwd
getcwdb
getdecoder
getdelim
getdoc
getdouble
getegid
getencoding
getentries
getenv
geteuid
getevent
getextensions
getfd
getfeature
getfile
getfilename
getfips
getfont
getformat
getfqdn
getframe
getfullargspec
getfunction
getgid
getgrgid
getgrnam
getgroups
gethashes
getheader
getheadernames
getheaders
getheightwidth
gethighlight
gethistoryfile
gethostbyaddr
gethostbyname
gethostname
geticonname
getinfo
getinitargs
getint
getints
getisolate
getitem
getkeybinding
getkeysdialog
getkeyset
getkeysframe
getkeyswindow
getlabeltext
getlasterror
getlevelname
getline
getlineno
getlinenumber
getlines
getlocale
getlogger
getmembers
getmessage
getmodule
getmodulename
getmro
getmtime
getname
getnameinfo
getnames
getnewargs
getopt
getopterror
getoption
getoptionlist
getoptions
getoutput
getparser
getpass
getpat
getpeercert
getpeername
getpending
getpid
getpos
getprevword
getpriority
getprog
getprompt
getproperty
getprotocol
getprototypeof
getproxies
getpublicid
getpublickey
getpwent
getpwnam
getpwuid
getrandbits
getrawasset
getreader
getreport
getresp
getresponse
getresult
getreturnvalue
getrlimit
getroot
gets
getscreen
getsectionlist
getservers
getsession
getset
getsignal
getsize
getslice
getsockname
getsockopt
getsource
getsourcefile
getsourcelines
getstate
getstdhandle
getstore
getstringwidth
getsublist
getsystemid
gettempdir
getter
getters
gettext
getthemedict
getticketkeys
gettime
gettimeout
getting
gettrace
gettype
getuid
geturl
getuser
getuserbase
getusercfgdir
getvalue
getvar
getwelcome
getwholeline
getwidth
getwindowsize
getwords
getwriter
getx
gflags
gha
ghaering
ghaiklor
ghsa
gi
gib
gibfahn
gibson
gid
gids
gif
gift
gil
gilles
gilli
gimeno
ginchereau
gio
giora
giorgos
giovanni
giovanny
gioyik
gireesh
gist
git
gitattribute
gitattributes
gitconfig
gitcvs
gitdir
gitfaq
gitfile
github
gitignore
gitk
gitlab
gitlfs
gitlink
gitmodules
gitpod
gitster
gitter
gittutorial
gitview
gitweb
gitwiki
give
given
gives
giving
glasser
glavan
glavina
glen
glenn
glib
glibc
glibcversion
glibcxx
glitch
glitches
glob
global
globalagent
globally
globalns
globalpreload
globals
globalsign
globalthis
globber
globbing
globs
glossary
glow
glue
glyph
gmail
gmane
gmtime
gmtoff
gname
gne
gni
gnome
gnomovision
gnore
gnu
gnupg
gnutls
go
goal
goals
goaway
gobject
goes
going
gold
goli
golo
golovin
gon
goncalves
gonda
gone
gonen
gongora
gonsalves
gonzaga
gonzalez
good
goodbye
goodies
goodlines
goods
goodwill
google
googlesource
googletest
gopher
gorbachev
gordon
gorez
got
gotcha
goto
gotofileline
gotoline
gotos
gots
gotten
gov
governance
governed
governing
government
govind
gowpen
gpgsign
grab
grabbing
grabs
grace
graceful
gracefully
grade
gradually
graduate
graft
grafts
graham
grained
grammar
grammatical
grammofix
granada
grant
granted
granting
grants
granular
graph
graphical
graphics
graphql
graphs
gratis
gravatar
grave
gravity
gray
grayscale
great
greater
greaterequal
greatest
greathouse
greatly
greco
greedy
greek
green
greene
greenland
greeting
greg
gregor
gregorian
gregory
grep
grepdialog
grew
grey
grid
gridded
griggs
groff
grok
gromnitsky
groove
gross
group
groupby
groupdict
grouped
groupindex
grouping
groupname
groupref
groups
grow
growing
grows
growth
gruenbaum
gsoc
gssapi
gtest
gu
guarantee
guaranteed
guarantees
guard
guards
guatemala
guess
guessed
guesses
guessing
guez
gui
guiadapter
guicent
guidance
guide
guided
guideline
guidelines
guides
guido
guilherme
guillaume
guinea
guiproxy
gulotta
gunzip
guo
gupta
gurgunday
gus
gustavo
gutierrez
guttsait
guy
guybedford
gward
gwer
gyp
gypfiles
gypi
gzip
gzipfile
gzipped
ha
haas
hack
hacker
hackerone
hacking
hacks
hacky
hackzzila
had
haderror
hadn
haering
haines
hair
halatsis
halde
half
halls
halo
halverson
halves
hamano
hamel
hammacher
hammer
hammond
hamwala
hand
handed
handful
handing
handle
handleapicall
handled
handleerror
handler
handlerclass
handlerlist
handlers
handles
handlescope
handlescopes
handlewrap
handlewraps
handling
hands
handshake
handshakes
handy
hang
hanging
hangs
hannes
hanoi
happen
happened
happening
happens
happily
happy
harband
hard
hardcode
hardcoded
harden
hardened
hardening
harder
hardlink
hardlinking
hardlinks
hardware
haresign
harish
harm
harmful
harmless
harmonic
harmonize
harmony
harness
";

pub const WORDS_09: &'static str = "harris
harrison
harshitha
harshithakp
hartig
has
hasarg
hasattr
hascolors
hascompare
hasconst
hascontenttype
hascrypto
hasexc
hasfeature
hasfipscrypto
hasfree
hash
hashable
hashalgorithm
hashbang
hashcmp
hasheader
hashed
hasher
hasherror
hasherrors
hashes
hashing
hashlib
hashmap
hashmismatch
hashmissing
hashseed
hashtable
hashunpinned
hashwrite
hasinstance
hasintl
hasjabs
hasjrel
hasjump
haslocal
hasn
hasname
hasown
hasownproperty
hasref
hassaan
hassubscribers
hast
haswell
hat
hatch
hauge
have
haven
having
haxx
hayes
hayrapetyan
hayward
hazard
hbar
hdo
hdrhistogram
he
head
headed
header
headerdefect
headernames
headerparser
headerregistry
headers
headersonly
headerssent
headerstimeout
headersurl
heading
headings
headline
heads
health
healthy
healy
heap
heapdump
heapify
heappop
heapprofile
heappush
heapq
heapsnapshot
heapstatistics
heaptotal
heapused
hear
heard
heart
hearts
heartsuit
heavily
heavy
heblikar
hebrew
hefangshi
height
heights
hel
held
helgason
hell
hellman
hello
helo
help
helped
helper
helpers
helpfiles
helpformatter
helpframe
helpful
helping
helplist
helps
helpsource
helvetica
hemanth
hemberger
hemert
hence
heneise
henkel
henney
henningsen
henry
her
herbert
here
hereafter
hereby
herein
hereinafter
hereunder
hermon
hernandez
herrero
herrington
herrmann
heterogeneous
hettinger
heuristic
heuristics
hex
hexadecimal
hexdecode
hexdigest
hexdigit
hexdigits
hexlify
hexversion
hi
hid
hidden
hiddentext
hiding
hidpi
hierarchical
hierarchies
hierarchy
high
higher
highest
highlight
highlighted
highlighter
highlighting
highlights
highly
highpage
highwatermark
hijacking
hilite
hiller
him
himadri
himself
hinatakah
hinds
hinkelmann
hinosawa
hint
hinting
hints
hirabhullar
hiragana
hirani
hirano
hiroaki
hiroki
hiromu
hirotaka
hiroto
his
histogram
historic
historical
historically
histories
history
historyi
historypath
historysize
hit
hitesh
hits
hitting
hkey
hlmark
hmac
hmammedzadeh
ho
hoc
hoffman
holbert
hold
holder
holders
holding
holds
hole
holes
holland
hollander
holmes
holmlund
holmquist
home
homebrew
homecls
homed
homedir
homepage
homogeneous
honduras
hong
honor
honored
honoring
honors
honour
honours
hood
hook
hookleftarrow
hookmissing
hookname
hookrightarrow
hooks
hookspath
hop
hope
hopefully
hoping
hopper
hops
horizontal
horizontally
horse
horton
host
hosted
hosting
hostname
hostnames
hostport
hosts
hosttype
hot
hotfix
hotkey
hotkeys
hou
houdt
houmani
hour
hours
house
housekeeping
houses
houssem
hover
hovering
hovertip
how
however
howto
hpa
hpe
href
hrtime
hstrerror
hsu
htab
htest
htests
htmldoc
htmlentitydefs
htmlformatter
htmlparser
htons
httpadapter
httpagent
httpbasicauth
httpbin
httpclient
httpconnection
httperror
httpexception
httpgetoptions
httphandler
httpheaderdict
httplib
httpmessage
httponly
httpparser
httpresponse
httpserver
httpshandler
httpstatus
httpversion
httpwarning
hu
huang
hudson
huffman
huge
hughes
hugo
hugues
hukkinen
hultman
human
humans
humphrey
hundred
hundreds
hung
hunk
hunks
hunt
hunter
hup
hurt
hurtado
hurts
hus
hutson
hwclock
hy
hybrid
hydrogen
hygiene
hynek
hyper
hyperparser
hypertext
hyphen
hyphens
hypot
hypothetical
ia
iadd
iamchenxin
ian
iana
iand
iandrc
iansu
iarna
ib
ibarra
ibm
ibmi
ibsize
ic
icann
icanon
icase
ice
ico
icon
iconbitmap
icondir
iconname
iconphoto
icons
iconv
ics
icu
icudt
iculslocs
icursor
icutrim
id
idandagan
idb
idbadapter
idbproxy
ide
idea
ideal
idealized
ideally
ideas
idempotent
ident
identchars
identical
identically
identifiable
identification
identified
identifier
identifiers
identifies
identify
identifying
identities
identity
identiy
ides
idiom
idiomatic
idl
idle
idleconf
idleconfparser
idlefork
idlehelp
idlelib
idlerc
idles
idlestartup
idletasks
idletime
idlharness
idn
idna
idnabidierror
idnaerror
idprog
idr
ids
idseq
idstring
idx
idxs
ie
ietf
iex
iexec
if
ifblk
ifchr
ifdef
ifdir
iferror
iff
ififo
ifilter
ifilterfalse
iflag
iflnk
ifloordiv
ifmt
ifndef
ifreg
ifs
ifsock
ify
iglob
ign
ignorable
ignore
ignorebom
ignorecase
ignored
ignoreerrors
ignores
ignoring
igor
ihara
ihrig
ihsuan
ii
iife
iifes
iin
iis
ijaz
ik
ikasumi
ikko
ikm
il
ilic
ilkka
ill
illegal
illescas
illumos
illustrate
illustrated
illustrates
illustration
ilsang
ilshift
ilya
ilyasshabi
im
imag
image
imagedata
imageformatter
images
imaginary
imagine
imaging
imagnumber
imap
imatmul
imatvieiev
img
imho
imitate
imitating
imitation
immediate
immediately
immediates
immune
immutability
immutable
imod
imode
imoses
imp
impact
impacted
impacting
impacts
impasse
impedance
impl
implement
implementation
implemented
implementers
implementing
implements
implication
implications
implicit
implicitly
implied
implies
imply
import
importable
importance
important
importantly
imported
importer
importerror
importers
importing
importkey
importlib
importmodule
imports
importwarning
impose
imposed
impossible
impression
improper
improperly
improve
improved
improvement
improvements
improves
improving
imran
imul
imyller
in
inability
inaccessible
inaccuracy
inaccurate
inactive
inactivity
inadequate
inadvertently
inappropriate
inbound
inbox
inc
incapable
incept
inception
incident
incidental
incidentally
incididunt
incl
including
inclusion
inclusions
inclusive
incoming
incompatible
incomplete
incompleteread
inconsistency
inconsistent
inconsistently
inconvenient
incorporate
incorporated
incorporates
incorporating
incorrect
incorrectly
incr
increase
increased
increases
increasing
increment
incremental
incrementally
incremented
incrementing
increments
incur
incurred
ind
indeed
indefinitely
indemnify
indemnity
indent
indentation
indentations
indented
indenting
indents
indentsearcher
indentwidth
independence
independent
independently
indeterminate
index
indexcontent
indexed
indexerror
indexes
indexing
indexof
indexsizeerr
india
indian
indicate
indicated
indicates
indicating
indication
indications
indicative
indicator
indicators
indices
indirect
indirection
indirectly
individual
individually
individuals
indranil
induce
indutny
indx
ine
ineffective
inefficient
inefficiently
inencoding
inequality
inet
inetd
inexact
inf
infer
inferred
infers
infile
infinite
infinitely
infinities
infinity
infinitytype
inflate
inflateraw
influence
info
infoaccess
infolist
infopath
inform
informally
information
informational
informative
informed
informs
infos
infp
infra
infrastructure
infringe
infringed
infringement
infringements
infringes
ing
ingholt
ingvar
inherently
inherit
inheritable
inheritance
inherited
inheriting
inherits
inhibit
ini
init
initargs
initgroups
initial
initialcolor
initialdelay
initialdir
initialfile
initialisation
initialise
initialised
initialization
initialize
initialized
initializer
initializers
initializes
initializev
initializing
initially
initialvalue
initiate
initiated
initiates
initiating
initiation
initiative
initiatives
initiatortype
initscr
inittriggerid
inject
injected
injecting
injection
inkey
inl
inline
inlined
inlinedecoder
inlining
inner
ino
inode
inodes
inotify
inp
inplace
input
inputencoding
inputfile
inputhook
inputs
inputsource
inputstream
inquiries
ins
insane
insanely
insecure
insensitive
insensitively
insert
inserted
insertfilter
inserting
insertion
insertions
insertofftime
inserts
inside
insist
insisted
insists
insn
insofar
insogna
insort
inspect
inspected
inspecting
inspection
inspectloader
inspectoptions
inspector
inspectortimer
inspectport
inspects
inspired
inst
install
installable
installation
installations
installed
installer
installers
installhandler
installing
installs
instance
instancecheck
instanceof
instances
instantiate
instantiated
instantiates
instantiating
instantiation
instaweb
instead
insteadof
instr
instream
instruct
instructed
instruction
instructions
instructs
instrumented
insufficient
insufficiently
int
intact
integer
integers
integral
integrate
integrated
integrating
integration
integrity
intel
intellectual
intelligence
intelligently
intend
intended
intends
intensity
intensive
intent
intention
intentional
intentionally
intenum
inter
interact
interacting
interaction
interactions
interactive
interactively
interacts
intercept
intercepted
interchange
interest
interested
interesting
interface
interfaces
interfere
interfered
interfering
interior
interleave
interleaved
intermediary
intermediate
intermediates
intermittent
intermixed
intern
internal
internalize
internally
internals
internalsubset
internalutil
international
internet
interning
interop
interoperable
interoperate
interp
interpol
interpolate
interpolated
interpolation
interpolations
interpret
interpretable
interpretation
interpreted
interpreter
interpreters
interpreting
interprets
interrupt
interrupted
interrupthook
interrupting
interruption
interrupts
intersection
interspersed
interval
intervals
intflag
intimate
intl
into
intr
intra
intraline
intranges
intrinsic
intrinsics
intro
introduce
introduced
introduces
introducing
introduction
introductory
introspected
introspection
intrusive
ints
inttypes
intuitive
intvar
inv
invalid
invalidate
invalidated
invalidates
invalidating
invalidation
invalidbase
invalidcommand
invalidheader
invalidmarker
invalidname
invalidschema
";

pub const WORDS_10: &'static str = "invalidtheme
invalidurl
invalidversion
invalidwheel
invariant
invariants
invented
invention
inverse
inversedict
invert
inverted
investigate
investigation
invisible
invite
invocation
invocations
invoke
invoked
invokes
invoking
involve
involved
involves
involving
io
iobase
iobinding
iocp
iocpproactor
ioctl
ioerror
iojs
iomark
iomenu
ionescu
ior
ios
iot
iota
iov
iow
ip
ipaddr
ipaddress
ipadx
ipady
ipc
ipe
iphoneos
ipname
ipow
ippolito
ipproto
ips
ipsum
ipv
ipy
ipython
iq
iqbal
ir
iraq
irc
ircformatter
ircs
ireland
ireq
ireqs
irgrp
ironpython
iroth
irq
irrational
irregular
irrelevant
irreversible
irrevocable
irritating
irshift
irusr
irwxg
irwxo
is
isaac
isaacs
isabelle
isabs
isabsolute
isache
isalive
isalnum
isalpha
isaquatk
isarray
isascii
isatty
isawaitable
isback
isbigintobject
isblk
isboolean
isbuffer
isbuiltin
iscarbontk
iscase
ischr
isclass
isclosed
iscocoatk
iscode
isconnected
iscontext
iscorebinding
iscoroutine
iscryptokey
isdate
isdead
isdecimal
isdef
isdevdrive
isdigit
isdir
isdirectory
isdisjoint
isdisturbed
isdst
isearch
iseditable
isempty
isenabled
isenabledfor
isencoding
iserror
iserrored
isexpandable
isfifo
isfile
isfinite
isframe
isfunction
isfuture
isgenerator
isgid
ish
ishaan
ishaq
isi
isid
isidentifier
isidns
isinf
isinstance
isint
isip
isipv
isjunction
iskeyobject
iskeyword
iskore
islam
island
islands
isleap
islegalport
islice
islink
islnk
islower
ismainthread
ismapped
ismethod
ismodule
ismount
isn
isnan
isnativeerror
isnull
isnumber
isnumeric
iso
isobject
isoformat
isolate
isolated
isolatedata
isolates
isolation
ispackage
ispackagedir
ispaused
ispeed
ispkg
ispreloading
isprimary
isprimitive
isprint
isprintable
ispromise
ispythonsource
israel
israw
isre
isreadable
isrecursive
isreg
isregexp
isreserved
isroutine
issamenode
isserver
isset
issock
issocket
isspace
isstring
issubclass
issue
issuecomment
issued
issuer
issues
issuing
issuperset
issym
issymbol
ist
istext
istitle
istraceback
istrusted
istty
isub
isuid
isuint
isundefined
isupper
isurlinstance
isutf
isvalid
isview
isvtx
isword
iswrap
isxquartz
it
italian
italic
italics
italo
italoacasas
italy
item
itemcget
itemconfig
itemconfigure
itemgetter
items
itemsize
itemsview
iter
iterable
iterables
iterate
iterated
iterates
iterating
iteration
iterationguard
iterations
iterator
iterators
iterdir
iterencode
iterfind
iteritems
iterkeys
itertext
itertools
itervalues
ito
itruediv
its
itself
iu
iusupov
iv
ivan
ivs
iwgrp
iwoth
iwrite
iwusr
iwyu
ix
ixgrp
ixor
ixoth
ixusr
izip
ja
jabbour
jack
jackson
jacksontian
jackyen
jacob
jagannath
jaideep
jail
jaime
jain
jake
jakecastelli
jakob
jakub
jalan
jamaica
jamen
james
jamie
jan
jannis
janssen
january
japan
japanese
jar
jaraco
jared
jarrod
jasnell
jason
jasongin
java
javascript
javascriptheap
javier
javis
jay
jayasankar
jazelly
jbarz
jbergstroem
jckxia
jdalton
jdharmon
jean
jedi
jefe
jeff
jeffery
jeffrey
jem
jenkins
jenna
jens
jensen
jeong
jeremiah
jeremy
jeroen
jerome
jes
jesse
jessica
jessicaquynh
jest
jesus
jewett
jeyanthinath
jgit
jhamhader
jiang
jiangq
jiawen
jim
jimb
jimenez
jimi
jimmy
jin
jing
jinho
jinja
jis
jit
jitcodeevent
jithil
jitless
jklepatch
jkrems
jo
joao
joaocgreis
job
jobs
jochen
jodat
joe
joern
joernchen
joesepi
johan
johannes
john
johnny
johnsen
johnson
johnston
join
joinable
joinablequeue
joined
joiner
joining
joinpath
joins
joint
jointhread
joinuser
jon
jonah
jonas
jonasba
jonask
jonathan
jones
jopann
joran
jordan
jorge
jos
jose
joseph
josh
joshgav
joshua
journey
joy
joyee
joyeecheung
joyent
jpeg
jpersson
jsdoc
jslint
json
jsondecoder
jsonencoder
jsonrpc
jsstack
jsstream
jsstreamwrap
jstransferable
juan
juanarbol
jucke
judge
judged
judgment
judis
juggernaut
jul
julia
julian
julianduque
julien
july
jump
jumps
jumptoline
jun
junction
junctions
june
jung
jungku
jungminu
junichi
junio
junior
junit
junk
junliang
junshu
jupyter
jupytermixin
jure
jurisdiction
jurisdictions
just
justification
justified
justify
justifymethod
justin
jvelezpo
jy
jython
ka
kabir
kaboom
kadir
kai
kaila
kailean
kaiser
kajiwara
kaka
kalahastri
kalrover
kamat
kanamaru
kang
kangaroo
kanika
kanishk
kanwathirtha
kapke
kaplun
kappa
karan
karande
karasawa
karl
karmazin
karrys
kaseorg
kasher
kasim
kasyanov
kat
katakana
kathy
katie
kato
katz
kau
kaufman
kawasaki
kayla
kazushi
kcin
kde
kdiff
ke
keane
kebab
keeley
keep
keepalive
keepcnt
keepends
keeping
keepintvl
keepopen
keeps
keepwhite
keita
keith
kelleher
kelly
kelvin
kemptyobject
ken
kenan
kend
kenji
kennedy
kenneth
kenny
kent
kentico
kenticocloud
kenza
kept
keqv
kerberos
kerins
kern
kernel
kernels
kevin
kevineady
key
keybinding
keybindings
keyboard
keycap
keychain
keycode
keydata
keydefs
keyed
keyedref
keyerror
keyfile
keygen
keyhan
keying
keylen
keylist
keylog
keymap
keyname
keynames
keyobject
keyobjectdata
keyobjects
keypad
keypair
keypress
keyrefs
keyrelease
keyring
keys
keyseq
keyserver
keyset
keysets
keyspage
keyspec
keystroke
keystrokes
keysview
keysym
keytype
keyval
keyvanzadeh
keyword
keywords
kfarnung
kformat
khafra
khafradev
khaidi
khineika
khuntia
ki
kib
kibodeaux
kick
kicked
kicknexttick
kid
kikinskiy
kill
killagu
killall
killed
killing
kills
killsignal
kilobytes
kim
kind
kinda
kinds
king
kingdom
kini
kirill
kiss
kitaya
kite
kitty
kiwiirc
kiyomizumia
klass
klassen
klauke
klaus
kleinschmidt
klemen
klopov
kmaxlength
knew
knewlistener
knob
knobs
knott
know
knowing
knowingly
knowledge
known
knows
knozerofill
knuth
ko
kobayashi
kocharin
kogovsek
kohei
kohta
koi
koki
kolar
komawar
kong
konieczny
konqueror
konstantin
kooi
kore
korea
korean
korving
kosher
koster
kostro
kotlin
koushi
kowalski
koziatinskii
kozyatinskiy
kqueue
kraj
krashnikov
krause
krawczuk
krayzeekev
krems
krishna
krol
krutko
ksslprotocol
ktlsprotocol
kuijsten
kulukundis
kumar
kummerow
kunal
kunalspathak
kunkee
kurchatkin
kurihara
kuriyosh
kurt
kushchak
kuthorx
kuwait
kvakil
kvstore
kwarg
kwargs
kwdefaults
kwlist
kwonlyargcount
kwonlyargs
kwset
ky
kyle
kyriakos
kysnm
kzak
la
lab
label
labeled
labelframe
labeling
labelling
labels
labeltext
labore
labs
lack
lacked
lacking
lacks
laddr
ladha
laenge
laid
lakech
lakshmi
lakshmiswethag
lal
lalonde
lambda
lambdas
lambert
lamp
lance
land
landed
landing
landmark
lands
lang
langa
langinfo
langle
langley
language
languages
lanka
lanz
large
largefile
largely
largepages
larger
largest
largs
larissayvette
lars
larson
last
lastch
lastchar
lastcmd
lasti
lastindex
lastindexof
lastline
lastly
lastmodified
lastname
lastpos
lasttype
lastupdate
lastval
laszlo
late
latency
later
latest
latex
latexformatter
latin
latitude
latter
lau
lauder
launch
launched
launcher
launchers
launches
launching
launchpad
laura
laurent
lauri
laverdet
law
laws
lawsuit
lax
layer
layers
layout
layouts
lazier
lazily
lazr
lazy
lazycache
lazymodule
lazytransform
lball
lbrace
lceil
lchmod
lchmodsync
lchown
lchownsync
lcov
ldconfig
ldflags
ldict
ldshared
ldversion
le
lead
leader
leading
leads
leaf
leak
leakage
leaked
leakfix
leaking
leaks
lean
leaning
leap
learn
learned
learning
learns
learnt
lease
least
leave
leaves
leaving
lebanon
led
ledesma
lee
leeight
left
leftarrow
leftharpoonup
leftmost
leftover
leftrightarrow
leftwards
leg
legacy
legacyheaders
legacyversion
legal
legally
legan
legendecas
legibly
legitimate
lehenbauer
lei
leko
lekova
lela
lemburg
lemire
len
lend
length
lengths
leniency
lenient
lenvin
leo
leon
leonardo
leslie
less
lessapprox
lesser
let
lets
letter
letters
letting
leung
lev
level
levelname
levelno
levels
leverage
leveraging
levin
lewis
lex
lexer
lexercontext
lexername
lexers
lexical
lexically
lexicographic
lexists
lflag
lfloor
li
liability
liable
liang
liar
lib
libblkid
libc
libcurl
libdest
libdir
libera
liberty
libfoo
libgcrypt
libgit
libgnutls
libiconv
libintl
liblog
libltdl
liblzma
libm
libmount
libmpdec
libname
libnode
libnspr
libnss
";

pub const WORDS_11: &'static str = "libpath
libpcre
libpl
libpython
libraries
library
libraryloader
librt
libs
libsecret
libssl
libstdc
libtool
liburl
libuuid
libuv
libxml
libxslt
libya
licence
licensable
license
licensed
licensee
licensees
licenses
licensing
licensor
licensors
lie
liebdich
liechtenstein
lies
life
lifecycle
lifespan
lifetime
lifetimes
lifo
lifoqueue
lift
lifted
lifting
ligature
light
lightweight
like
likelihood
likely
likewise
likhter
liking
lilypond
lim
limbo
limit
limitation
limitations
limited
limiter
limiting
limits
lin
lind
lindstaedt
line
linear
linearly
linebreak
linecache
lineend
linefeed
lineinfo
linelength
linelengths
lineno
linenos
linenostart
linenostep
linenum
linenumber
linenumbers
lineoffset
lineparser
lines
linesep
linestart
linestarts
lineterminator
linetoolong
linewidth
ling
lingl
link
linkage
linkat
linkcandidate
linkcollector
linked
linkedlist
linker
linkers
linkgit
linkgoron
linkification
linkify
linking
linklist
linkname
links
linksource
linksync
linktype
lint
linter
linters
linting
linus
linux
linuxone
lion
liran
lis
lisp
list
listbox
listchildren
listdir
listed
listedtoplevel
listen
listened
listener
listenercount
listeners
listenfd
listening
listens
listinfo
listing
listmodules
listnode
listorset
lists
lite
literal
literally
literals
literalstring
litigation
litter
little
liu
liuxingbaoyu
live
liveerror
liverender
lives
livia
liviamedeiros
living
liviu
ljharb
ljust
ller
llnode
lname
lno
lnotab
lo
load
loadable
loadavg
loadcfgfiles
loaddhparam
loaded
loadenvfile
loader
loaderbasics
loaders
loadfile
loadfiledialog
loading
loadingfailed
loadlibrary
loadpkcs
loads
loadtagdefs
lob
loc
local
localaddress
localappdata
localcontext
locale
localecompare
localeconv
localedir
locales
localfamily
localfsadapter
localhost
locality
localization
localize
localized
locally
localname
localns
localport
locals
localtime
locate
located
locates
locating
location
locations
locator
locators
lock
locke
locked
locker
lockf
lockfile
lockfiles
locking
locks
locs
loewis
log
logarithm
logfile
logged
logger
loggerdict
loggers
logging
logic
logical
logically
login
logjam
loglevel
logname
logo
logos
logout
logrecord
logrecords
logrender
logs
logsync
logwithid
loic
lone
long
longer
longest
longitude
longleftarrow
longlist
longlong
longmapsto
longname
longobject
longrightarrow
longs
longstanding
look
lookahead
lookalike
looked
looking
looks
lookup
lookupdict
lookuperror
lookups
lookupservice
loomis
loong
loongarch
loop
loopback
loopboundmixin
looped
looping
loops
loose
loosely
loosen
loosened
lopez
lore
lorem
lorenz
loring
lose
loses
losing
loss
lossage
losses
lossless
losslessly
lost
lot
lots
loud
loudly
louie
louren
love
low
lowe
lower
lowercase
lowercased
lowercasing
lowest
lowwatermark
lozenge
lpar
lpcvoid
lpfiletime
lpinca
lpython
lrlna
lru
lsan
lseek
lshift
lspec
lsprof
lstat
lstrip
ltext
lto
lu
luan
luca
lucamaraschi
lucas
lucchetta
lucien
luckily
luigi
luis
lukas
lukasz
luke
lukekarrys
lumish
lundh
lundibundi
luo
lutimes
luvaton
luxembourg
lwpcookiejar
lxe
lxy
ly
lying
lynx
lyons
lzma
lzmacompressor
lzmaerror
lzmafile
ma
maarten
mac
maccana
macgowan
mach
machen
macherey
machine
machinery
machines
macholib
maciej
macintosh
mackall
maclover
macnaughton
macos
macosx
macro
macros
macs
macwindowstyle
madara
made
madhuri
madsen
mafintosh
mag
magenta
magic
magicstack
magna
magnitude
magnus
magnusson
mail
mailbox
mailboxes
maildir
mailer
mailhost
mailinfo
mailing
mailman
mailmap
mailname
mailrc
mails
mailsplit
mailto
main
mainloop
mainly
mainmenu
mainmodule
mainprocess
mainstream
maint
maintain
maintained
maintainer
maintainers
maintaining
maintains
maintenance
mainthread
maintype
majer
major
majority
majors
mak
makarenko
make
makecallback
makedev
makedirs
makefile
makeflags
makelogrecord
makelong
makemaker
makemirror
makenova
maker
makes
maketrans
making
maksim
maksimov
maksym
mal
malaysia
malcolm
maldives
maledong
malen
malformed
malfunction
malicious
malloc
malloced
mallocedbuffer
mallocedmemory
malte
man
manage
managed
management
manager
managers
manages
managing
mandates
mandatory
mandeep
mangam
mangle
mangled
mangling
manifests
manipulate
manipulated
manipulates
manipulating
manipulation
manner
manpage
manpages
manual
manually
manuals
manuel
manufacturer
many
manylinux
mao
map
mapfiles
mapped
mapper
mapping
mappingproxy
mappings
mappingview
maps
mapsto
maptoheaders
mar
maraschi
marc
marcel
march
marchini
marco
marcos
marcus
marczak
maret
margaine
margin
maria
marian
marie
marigold
marinacci
maring
mario
mark
markakis
markdown
marked
marker
markeratom
markerlist
markers
marketing
marking
markings
marknames
markobject
marks
markup
markupbase
markuperror
markupsafe
markus
marlena
marlow
marsh
marshal
marshaled
marshall
marshalled
marshalling
marsonya
martin
martinez
marton
marvin
mary
marzelin
masahiko
masashi
mask
masking
masks
mason
masquerading
massage
massive
master
masucci
mat
match
matchall
matched
matcher
matches
matchesglob
matching
matchobj
matej
material
materializing
materials
mateusz
math
mathematical
mathematically
mathematics
mathematisch
matheus
mathias
mathieu
matlab
matmul
matrix
matsuda
matt
matteo
matteobax
matter
matters
matthew
matthewloring
matthias
mattia
mattias
mattiasbuelens
mattloring
matzavinos
maurice
mawaregetsuka
max
maxarraylength
maxbinsize
maxbuf
maxbuffer
maxbusytries
maxcode
maxconnections
maxcount
maxdepth
maxdict
maxfds
maxfreesockets
maxgroups
maxheaderlen
maxheadersize
maxheight
maximal
maximize
maximized
maximov
maximum
maxlen
maxlength
maxlengths
maxlevels
maxline
maxlinelen
maxlinelength
maxlineno
maxlines
maxlinesize
maxlist
maxmem
maxother
maxrepeat
maxretries
maxretryerror
maxrss
maxsize
maxsockets
maxsplit
maxstring
maxstrlength
maxtuple
maxval
maxvalue
maxversion
maxwidth
maxx
maxy
maxyear
may
maya
mayank
maybach
maybe
maybelocal
maybesave
mayr
mays
mbar
mbornath
mbox
mccann
mccarthy
mccoll
mcdonald
mcdowell
mcentee
mckenzie
mcmillan
mcollina
mdast
me
mean
meaning
meaningful
meanings
means
meant
meantime
measure
measured
measurememory
measurement
measurements
measures
measuring
mechanic
mechanical
mechanism
mechanisms
meck
medeiros
media
median
mediatype
mediawiki
medium
meek
mees
meet
meeting
meetings
meets
megabytes
mei
meinhardt
meisenheimer
meixg
meld
mem
member
members
membership
memcheck
memcmp
memleak
memmove
memo
memoize
memoized
memoizing
memory
memorybio
memoryerror
memoryhandler
memoryretainer
memoryusage
memoryview
memorywheel
memset
mendez
meng
menlo
menon
mention
mentioned
mentioning
mentions
menu
menubar
menubutton
menudefs
menuitem
menus
merchant
mercurial
mercy
mere
merely
merge
merged
merges
mergesort
mergetag
mergetool
mergetools
merging
mergy
mert
mescalchin
mesg
meson
mesonbuild
mess
message
messagebox
messagechannel
messageclass
messagedefect
messageerror
messageevent
messageport
messages
messaging
messy
mesteery
mestery
met
meta
metacharacters
metaclass
metaclasses
metadata
metainfo
metapathfinder
metavar
metcalf
meter
meth
method
methodcaller
methodname
methodproxy
methodresponse
methods
methodtype
meths
metrics
meurer
mexico
mey
meyer
mgol
mhdawson
mi
mib
micahel
micha
michael
michaelis
michal
michel
mick
micnic
micro
micros
microsecond
microseconds
microsoft
microtask
microtaskmode
microtasks
mid
middle
middleware
midi
midnight
midx
might
migrate
migrated
migrating
migration
miguel
mihai
mihilmy
mikael
mike
mikeal
milad
miladfarca
mildsunrise
miles
milestone
milestones
military
miller
million
millisec
millisecond
milliseconds
milton
mime
mimebase
mimeimage
mimemultipart
mimeparams
mimetext
mimetools
mimetype
mimetypes
mimic
mimics
min
mind
minded
mindhsize
mine
ming
mingw
mini
minidom
minimal
minimally
minimatch
minimize
minimum
minimumwidth
minlen
minor
minority
minors
minozhenko
minqi
minsize
minuend
minus
minute
minutes
minval
minvalue
minversion
minwoo
minyear
mips
mipsel
mir
miroslav
mirror
mirrors
mis
misaligned
misbehave
misbehaved
misbehaving
misc
miscellaneous
miscomputed
misconfigured
miscounted
misdetected
misdirected
misformatted
mishandle
mishandled
misidentified
misinterpreted
misleading
misleadingly
mismatch
mismatched
mismatches
mismatching
mismerge
mismerges
misnamed
misparsed
misplaced
misrepresented
miss
missed
misses
missing
missinghashes
missingschema
missingstyle
misspelled
misspelling
misspellings
misspelt
mistake
mistaken
mistakenly
mistakes
mistaking
misterdjules
misterpoe
mistook
misty
mistyped
mistypes
misunderstood
misuse
misused
mit
mitchell
mithun
mitigate
mitigation
mitigations
mitra
mitre
mix
mixed
mixes
mixin
mixing
mixins
miyamoto
mkamakura
";

pub const WORDS_12: &'static str = "mkcodecache
mkdir
mkdirp
mkdirsync
mkdtemp
mkdtempsync
mkfifo
mknod
mksnapshot
mkssldef
mkstemp
mktemp
mktime
mktree
mmap
mmaped
mmarchini
mname
mo
mobile
mock
mocked
mocking
mocks
mocktimers
mocktracker
mod
modal
mode
model
modelbase
modeled
modeline
modeling
modelled
modelmeta
models
modem
moderate
moderation
modern
modernization
modernize
modernized
modes
modf
modification
modifications
modified
modifier
modifiers
modifies
modify
modifying
modname
modp
mods
module
modulebrowser
modulefinder
modulemap
modulename
modules
modulespec
moduletype
modulewrap
modulo
modulus
moduluslength
mohamed
mohammed
mohanathas
mojave
mojibake
mold
molow
moment
moments
momtchev
momtchil
mon
monaco
monday
monitor
monitored
monitoring
monkey
monkeypatching
monkick
mono
monokai
monospace
monospaced
monotonic
monotonically
monsanto
montanaro
month
monthname
monthnames
monthrange
months
monty
moon
moonball
moore
moorehead
moral
morales
more
moreover
morgan
moritz
morocco
morozov
morrison
morrme
morsel
mortem
moshe
moss
most
mostly
motif
motion
motivated
motivation
motley
mount
mountain
mounted
mounts
mouse
mousewheel
move
movecursor
moved
movement
movements
moves
moveto
movie
movies
moving
mozhet
mozilla
mpa
mrjithil
mro
mru
msbuild
mscdex
msdos
msec
msecs
msgid
msgpack
msgsend
msi
msie
msys
msysgit
mta
mtime
mtimes
mtu
mu
mua
muas
much
muck
mudit
mueller
muenzenmeyer
mul
mullender
mult
multi
multiarch
multiauthor
multibyte
multicall
multicast
multiheaders
multiline
multilingual
multimail
multipage
multipart
multipath
multiple
multiplexer
multiplication
multiplied
multiply
multiplying
multiprocess
multistatus
multistatusbar
multithread
multithreaded
munge
munged
munging
munmap
murakami
murgatroid
murphy
murthy
musa
music
musl
musllinux
musse
must
mustafa
mustcall
mustclose
mustnotcall
mustsucceed
mutability
mutable
mutablemapping
mutableset
mutate
mutated
mutating
mutation
mutations
mutex
mutexes
mutt
mutual
mutually
my
myapp
myclass
myemitter
myerror
myfile
myhandler
mykola
myles
mylesborins
myller
mymodule
myobject
mypy
myrpcserver
myscript
myself
myseq
mysql
mystream
myurl
mzucker
na
nabla
nag
nagesh
naghmouchi
nagle
nagy
naive
nakamura
nalborczyk
name
named
namedcurve
namedtuple
namedtuplemeta
namedtuples
nameerror
namelink
namelist
namely
namer
names
namespace
namespaced
namespaceerr
namespacepath
namespaces
namespaceuri
nametolevel
nametowidget
naming
nan
nandaa
nannynag
nano
nanoseconds
nans
nanxiongchao
nao
naor
napi
napiversion
naptr
nargs
narirou
narrow
narrowed
narrower
narrowing
nash
nasm
nassri
nasty
natalie
natanael
nate
nathan
nathias
national
native
natively
nativemodule
natives
natural
naturally
nature
navigate
navigating
navigation
navigator
nazar
nbar
nbits
nbytes
ncalls
ncoghlan
ncols
ncu
ncurses
ncursesw
ncvalue
ndata
ndebug
ndef
ndez
ndiff
ndigits
ndim
ne
near
nearby
nearest
nearform
nearheaplimit
nearly
neat
necessarily
necessary
nedmalloc
need
needdrain
needed
needing
needle
needless
needlessly
needmoredata
needreadable
needs
needwrapbutton
neeraj
neg
negate
negated
negation
negative
negatively
negatives
neginf
negligence
negotiate
negotiated
negotiates
negotiation
neighbours
neil
neither
neitsch
nelson
nemer
nemeth
neon
ness
nest
nested
nesteddict
nesting
net
neta
netbsd
netflix
netherlands
netloc
netmask
netmasks
netname
netrc
netscape
netserver
netsocket
network
networking
networks
neuter
neutral
never
nevertheless
new
newargs
newbranch
newchars
newcomers
newcontext
newdata
newer
newest
newfalse
newfile
newfromutf
newheaders
newinstance
newisolate
newkey
newline
newlines
newlistener
newlocals
newly
newman
newmod
newname
newobj
newpath
newpos
news
newscr
newsel
newseq
newsession
newstringtype
newton
newtop
newtrue
newtype
newurl
newvalue
newwin
nexists
next
nextchar
nextclient
nextline
nextrange
nexttick
nfinished
nfoo
nfour
ngettext
nginx
nguyen
nhello
ni
nia
nicaragua
nice
nicely
nicer
nicholas
nick
nickname
nicknaso
nicolas
nicta
nicu
nid
nie
niederer
niels
nielsen
nigel
nigeria
night
nightlies
nightly
nikander
nikhil
nikita
niklas
nikola
nikolai
nikolay
nil
nim
nimit
nin
nine
ninesecs
ninja
nison
nist
nistpubs
nit
nitfol
nitin
nitish
nitpick
nits
nitzan
niveditn
nix
niya
niyas
nizipli
nlargest
nlcre
nli
nline
nlines
nlink
nlocals
nmpwait
nmtuple
no
noah
noaltscreen
noam
noassert
noatime
nobackground
nobody
noclobber
nocover
nodata
node
nodebio
nodedata
nodefault
nodefaultroot
nodefilter
nodejs
nodejsversion
nodelay
nodelist
nodename
nodeplatform
nodeprecation
noderuntime
nodes
nodesource
nodetiming
nodetracing
nodetype
nodeuser
nodevisitor
nodot
noffset
noflag
nofollow
nofree
noinherit
noise
noisy
nolan
nolik
nolint
nominal
nominate
nominated
nomination
nominations
nominmax
non
noname
nonamefile
nonblock
nonblocking
nonce
noncebit
none
nonempty
nonetype
nonexistent
nonlocal
nonlocals
nonmultipart
nonnegative
nonnumeric
nonsense
nonsensical
nonstandard
nonstop
nontrivial
nonzero
noop
noordhuis
nop
noprefix
noqa
nor
noreturn
norm
normal
normalise
normalised
normalising
normalization
normalizations
normalize
normalized
normalizedname
normalizer
normalizes
normalizing
normally
normcase
normcased
normdir
normed
normpath
norris
north
northern
norvell
norway
nosectionerror
nosigint
noskillgirl
not
notable
notably
notabs
notafter
notarization
notation
notationdecl
notationname
notations
notbefore
notdeepequal
note
notebook
noted
notequal
notes
notexists
notfounderr
nothanks
nothing
notice
noticeable
noticed
notices
noticing
notification
notifications
notified
notifier
notifies
notify
notifying
notimplemented
notin
notion
notrequired
notset
notstrictequal
nov
november
now
nowait
nowrap
nparams
npattern
nprob
nread
nsec
nsew
nsname
nspaces
nsswitch
ntabs
ntemiris
ntext
nthe
nthree
ntoa
ntohl
ntpath
ntransfercmd
ntwo
nu
nul
null
nullcheck
nullcontext
nulled
nullfile
nullformatter
nullhandler
nullish
nullptr
nulls
num
number
numbered
numberformat
numbering
numbers
numbervalue
numbytes
numcpus
numerator
numerators
numeric
numerical
numerically
numerous
numlines
numpy
numpylexer
nums
nvlpubs
nwafili
nworld
nwritten
ny
oaep
oaephash
oaeplabel
ob
obey
obj
objc
objclass
objdump
object
objection
objections
objective
objectmode
objectname
objects
objecttable
objecttemplate
objecttreeitem
objectwrap
objs
objtable
objtype
obligation
obligations
oblique
obrezkov
obs
obscure
observable
observation
observe
observed
observer
observers
obsize
obsolete
obsoleted
obsoletes
obstext
obstruct
obtain
obtained
obtaining
obtains
obvious
obviously
oc
ocb
occasion
occasional
occasionally
occupied
occur
occuring
occurred
occurrence
occurrences
occurring
occurs
ocean
ocsp
oct
octal
octave
octavian
octdigits
octet
octets
october
octopus
od
odd
oddball
ode
odem
oder
odot
oe
of
off
offboarding
offending
offer
offered
offering
offers
office
official
officially
offline
offset
offsets
offvalue
ofirbarak
oflag
ofrobots
often
oguz
oh
ohtsu
oid
oidmap
oidset
ois
ojas
ok
okamoto
okay
okoth
okp
oky
ol
old
older
oldest
oldline
oldmod
oldsberg
oldscr
oldvalue
ole
oledll
oleg
olegas
oleksandr
oli
oliveira
oliver
olivier
olszewski
om
oman
omar
omega
ominus
omission
omit
omits
omitted
omitting
on
onboarding
once
oncewrapper
onclick
ondoubleclick
ondrag
ondruch
one
onecmd
oneline
onenail
oneoff
onerror
ones
onexc
onexit
onfatalerror
ongoing
onion
onkey
onkeypress
online
onlinepubs
only
onmessage
onpropagate
onread
onreadable
onresize
ons
onscopeleave
onscreenclick
onstreamread
ontext
ontimeout
ontimer
onto
onvalue
onward
onwards
oo
oob
oom
oops
op
opa
opaque
opara
oparg
opcode
opcodes
open
openasblob
openat
openbsd
opendir
opendirsync
opened
opener
openerdirector
openers
opengroup
opening
openings
openjs
openjsf
openkey
openmode
openpgp
openprocess
openpty
opens
opensource
openssh
openssl
opensslconf
openssldir
openssls
opensuse
opensync
openwall
operand
operands
operate
operated
operates
operating
operation
operational
operationerror
operations
operator
operators
opinion
opinionated
opinions
oplus
opmap
opname
opperwall
opportunistic
opportunities
opportunity
opposed
opposite
ops
opt
optdict
opted
optgroup
optik
optim
optimal
optimization
optimizations
optimize
optimized
optimizedlist
optimizer
optimizes
optimizing
opting
option
optional
optionally
optionerror
";

pub const WORDS_13: &'static str = "optiongroup
optionmenu
optionparser
options
optionsoptions
optionsparser
optname
optparse
opts
opus
or
oracle
orange
orangemocha
orchid
ord
orde
order
ordered
ordereddict
orderfile
ordering
orders
ordinal
ordinals
ordinarily
ordinary
org
organization
organizations
organize
organized
orgs
orient
orientation
oriented
orig
origin
original
originally
originate
originated
originates
originating
origins
originset
orlenko
orphan
orphaned
ort
os
osame
oscar
oscrypto
oserror
oses
osfhandle
osher
oslash
osmond
osname
ospeed
oss
ossl
osstatus
ostroukhov
osx
other
otherbuffer
others
otherwise
othiym
otimes
otrishko
otz
ou
oudkerk
ought
our
ours
ourselves
out
outbound
outbuf
outcome
outcomes
outdate
outdated
outencoding
outer
outermost
outfile
outfp
outgoing
outline
outlined
outlive
outlived
outofdata
outofmemory
output
outputencoding
outputfile
outputlength
outputs
outputstream
outputwindow
outright
outside
outsider
outstanding
outwin
ouyang
ov
over
overall
overcome
overdue
overflow
overflowed
overflowerror
overflowing
overflowmethod
overflows
overhaul
overhead
overkill
overlap
overlapped
overlapping
overlaps
overlay
overline
overlined
overload
overloaded
overloading
overloads
overlong
overly
overridable
overridden
override
overrides
overriding
overrun
overrunning
overruns
overview
overwhelm
overwrite
overwrites
overwriting
overwritten
overwrote
ovflowd
ovi
oviedo
ow
owczarek
owen
own
owned
owner
ownerclass
ownerdocument
ownerelement
owners
ownership
owning
owns
ows
oxley
oyyd
oz
pa
pacheco
pack
package
packageconfig
packaged
packagefinder
packageindex
packagejson
packagemanager
packagename
packagepath
packager
packages
packaging
packdata
packed
packer
packet
packets
packfile
packfiles
packing
packs
packstream
pad
padded
padding
paddingdefect
padilha
pads
padstart
padx
pady
paez
pagani
page
pager
pagers
pages
pagesize
paging
paid
pain
paint
painted
pair
paired
pairing
pairs
pairwise
pale
palette
palma
palmires
pam
pan
panama
pandey
pane
panedwindow
panel
panels
panes
pango
pangomarkup
panidepu
panikkal
panva
paolo
paper
papirovski
par
para
paragraph
paragraphs
paraguay
parallel
parallelism
parallelize
parallels
param
paramencoding
parameter
parameterize
parameterized
parameters
paramgen
params
paramspec
paramspecargs
pardir
pardue
paren
parencol
parenleft
parenline
parenmatch
parenright
parens
parent
parental
parentheses
parenthesis
parenthetical
parentid
parentnode
parentpath
parentport
parents
parenturl
parity
park
parrotting
parsable
parse
parseable
parseaddr
parsearg
parseargs
parsebytes
parsed
parsedate
parseencoding
parseenv
parsefile
parsefloat
parseline
parsemap
parseopt
parser
parserbase
parsercreate
parseresult
parsers
parses
parsestr
parsestring
parsing
parsingerror
part
partial
partially
partialmethod
participant
participants
participate
participating
participation
particular
particularly
parties
partition
partitioned
partly
parts
party
pascal
pase
pasha
pass
passage
passages
passed
passes
passfds
passing
passive
passphrase
passphrases
passthrough
passwd
password
passwords
past
paste
pasted
pasting
pat
patch
patchable
patched
patcher
patches
patching
patchlevel
patchset
patel
patent
patents
path
pathak
pathbase
pathbrowser
pathext
pathfinder
pathinfo
pathlen
pathlib
pathlike
pathmetadata
pathname
pathnames
pathobject
pathological
paths
pathsegments
pathsep
pathset
pathspec
pathspecs
pathtofileurl
pathvar
patience
paton
patrick
patrik
pats
pattern
patternerror
patterns
patterntype
patvar
paul
pause
paused
pauseonconnect
pauses
pausing
pavel
pawar
pawel
pawn
pax
pay
paying
payload
payloads
payment
pays
paz
pcbuild
pchar
pcolor
pcre
pe
peace
peak
pear
pechkurov
pedantic
pedersen
peek
peeked
peel
peer
peercerts
peername
peers
peg
pegen
pekka
pem
pen
penalize
penalty
pencolor
pending
pendown
penev
peng
penguin
pensize
penup
people
pep
peps
per
percall
percent
percentage
percentile
percentiles
percents
percolate
percolator
pereira
perf
perfctr
perfect
perfectly
perforce
perform
performance
performant
performed
performing
performs
perhaps
period
periodic
periodically
periods
perkins
perl
perm
permanent
permanently
permissible
permission
permissions
permissive
permit
permits
permitted
permitting
perms
permutation
perp
perrotte
perry
persid
persist
persisted
persistence
persistent
person
personal
persons
perspective
pertain
pertaining
pertinent
peru
pes
pet
petar
petcoff
pete
peter
peters
peterson
petka
petkaantonov
petrov
petushkov
peze
pformat
pgo
pha
phane
phantom
phase
phenoelit
phi
phil
philip
philipp
philippe
philippines
phillip
phillipj
phillips
philosophical
phone
phony
photoimage
phrase
phrased
phrases
phrasing
physical
physically
pi
pick
pickaxe
picked
picker
pickier
picking
picklable
pickle
pickleable
pickled
pickler
pickles
pickletools
pickling
picklingerror
picks
picky
picture
pictures
pid
pids
pie
piece
pieces
pierre
pierrick
piers
pieter
pietro
pig
piisang
pil
pillow
pimlie
pimterry
pin
pinca
ping
pingpong
pings
pink
pinned
pinning
piotr
piotrowicz
pip
pipe
piped
pipehandle
pipeline
pipelined
pipelines
pipelining
pipermail
piperror
pipes
pipeto
pipewrap
piping
pipprovider
pipreporter
pipsession
pipx
piranna
pis
piscisaureus
pitfall
pitrou
pittman
pixel
pixels
pixmap
pjoin
pjson
pkey
pkgconfig
pkgname
pkgpath
pkgutil
pki
pkis
pkovacs
place
placed
placeholder
placeholders
placement
places
placing
plain
plainly
plainpager
plaintext
plan
plane
planet
planned
planning
plans
planting
plat
platbase
platform
platformatic
platformdirs
platforms
platlib
platlibdir
platstdlib
platzer
plausible
play
player
playing
please
plen
plesciuc
plink
plist
plistlib
plot
plug
pluggable
plugged
plugin
plugins
plumbing
plural
plus
plusone
pmarchini
pmod
pname
po
pocoo
point
pointed
pointer
pointers
pointfloat
pointing
pointless
points
poison
poker
policies
policy
policybase
polish
political
poll
pollhup
pollin
polling
pollinterval
pollout
pollpacket
pollresponse
polls
pollselector
polluting
pollution
polo
poly
polyfill
polygon
pomelo
pomerantsev
pong
ponies
ponnan
pooja
poojadurgad
pool
poolblock
pooled
pooling
poolkey
poolmanager
pools
poolsize
poor
poorly
pop
popen
popitem
popleft
popped
popping
pops
popular
populate
populated
populates
populating
population
popup
popups
popupwait
porcelain
porcelains
port
portability
portable
ported
porting
portion
portions
ports
portugal
portuguese
pos
posada
position
positional
positionals
positioned
positioning
positions
positive
positives
posix
posixmodule
posixpath
posixshmem
posonly
posonlyargs
possesses
possession
possessive
possessives
possibilities
possibility
possible
possibles
possibly
post
postcmd
postcommand
posted
postel
postfix
postimage
posting
postject
postmessage
postmortem
postpone
postrelease
posts
postscript
posxy
pot
potential
potentially
potham
potra
potty
pound
pout
poutch
pov
pow
power
powerful
powerpc
powers
powershell
ppcle
ppid
pprint
practical
practice
practices
pracucci
pragma
pranshu
pratik
prayag
pre
pread
preadv
preallocate
preamble
prebuilt
prec
precede
preceded
precedence
precedes
preceding
preceq
precise
precisely
precision
precmd
precompiled
precomposed
precompute
precondition
pred
predecessor
predecessors
predefined
predicate
predicates
predict
predictable
preexisting
preface
prefer
preferable
preferably
preference
preferences
preferred
prefers
prefetch
prefinish
prefix
prefixed
prefixes
prefixing
prefixlen
preformat
preformatted
prefs
preimage
preliminary
preload
preloaded
preloading
premature
prematurely
preopen
preopens
prep
preparation
preparatory
prepare
prepared
prepareparser
preparer
prepares
preparing
prepend
prepended
prepending
prepends
preposition
preproc
preprocess
preprocessing
preprocessor
prerelease
prereleases
prereq
prerequisite
prerequisites
presence
present
presentation
presented
presenting
presently
presents
preserve
preservecursor
preserved
preserves
preserving
preset
president
press
pressed
presses
pressing
pressure
presumably
presumed
pretend
pretended
pretending
prettify
pretty
preul
prev
prevail
preveen
prevent
prevented
preventing
prevention
prevents
previous
previously
prevrange
pri
price
prieto
prim
primarily
primary
prime
primitive
primitives
primordial
primordials
prims
prince
princejwesley
principal
principally
principle
principles
print
printable
printables
printed
printer
printerr
printerrors
printf
printing
prints
prio
prior
priorities
prioritise
prioritize
priority
priorityqueue
pristine
priv
privacy
private
privatedecrypt
privateencrypt
privatekey
privately
privilege
privileged
privileges
privkey
priyank
priyanka
prize
pro
proactive
proactively
proactor
";

pub const WORDS_14: &'static str = "probability
probable
probably
probe
probes
problem
problematic
problems
proc
procedure
procedures
proceed
proceeding
proceeds
process
processed
processenv
processerror
processes
processing
processname
processor
processors
procfs
prod
produce
produced
producer
produces
producing
product
production
products
productversion
prof
profanity
profile
profileend
profiler
profilers
profiles
profiling
profit
profits
prog
progbits
progname
program
programmatic
programmer
programmers
programming
programs
progress
progressbar
progresscolumn
progresses
progressive
progressively
progs
prohibit
prohibited
prohibiting
prohibits
proj
project
projecting
projects
prominence
prominent
promise
promised
promisehook
promisehooks
promiseresolve
promises
promisewrap
promisified
promisify
promisor
promote
promoted
promotes
promoting
promotion
prompt
prompted
prompting
prompts
prone
pronoun
pronouns
proof
prop
propagate
propagated
propagating
propagation
proper
properly
properties
property
proportional
proposal
proposals
propose
proposed
proprietary
props
propto
prose
prosper
prot
protect
protected
protecting
protection
protections
protects
proto
protocol
protocolerror
protocolmeta
protocols
protos
prototoype
prototype
prototypes
prototypically
protoype
prove
proved
provide
provided
provider
providers
provides
providing
provision
provisional
provisionally
provisions
proxied
proxies
proxify
proxy
proxyauth
proxyconfig
proxyenable
proxyerror
proxyhandler
proxymanager
proxyoverride
proxytype
prudent
prune
pruned
pruning
pserver
pseudo
pseudocode
pseudoheader
pseudoheaders
pseudorandom
psi
psize
psmarshall
pstats
pthread
pthreads
pton
pty
ptype
pu
pub
pubid
pubkey
public
publication
publicdecrypt
publicencrypt
publicexponent
publicid
publicity
publickey
publicly
publish
published
publisher
publishers
publishes
publishing
pubs
puerto
pujin
pulkit
pull
pulldom
pulled
pulling
pulls
pulse
pulsing
pummel
pump
punathil
punch
punctuation
punteek
punycode
pupiltong
pure
purelib
purely
purepath
purepathbase
pureposixpath
purge
purl
purple
purpose
purposefully
purposes
pursuant
push
pushback
pushdefault
pushed
pushes
pushing
pushkal
pushremote
pushstream
pushurl
puskin
put
putative
putcmd
putheader
putline
putrequest
puts
putting
putty
puzpuzpuz
pwrite
pxi
py
pyc
pycache
pycf
pyclbr
pycompile
pycompileerror
pycon
pyconfig
pycs
pyd
pydatetime
pydecimal
pydist
pydistutils
pydoc
pyenv
pyexpat
pygmentize
pygments
pyhash
pyi
pyimport
pylint
pylong
pymalloc
pyo
pyopenssl
pypa
pyparse
pypi
pypirc
pyproject
pypug
pypy
pyrepl
pyrex
pyshell
pysqlite
pytb
python
pythoncore
pythonic
pythonlexer
pythonpath
pythons
pythonstartup
pythonverbose
pythonversion
pythonw
pythonware
pythonx
pyunicode
pyvenv
pyver
pyversion
pyw
pyx
pyz
qard
qatar
qianjin
qingyan
qingyu
qinhui
qiu
qname
qnames
qop
qsize
qsort
quad
quadratic
quale
qualified
qualifier
qualifiers
qualify
quality
qualname
quantity
quantum
quarantine
quarter
quasi
quentin
queried
queries
query
querying
queryobjects
querystring
queryvalue
queryvalueex
question
questionable
questions
queue
queued
queuehandler
queuelistener
queuemicrotask
queues
queuing
quic
quick
quicker
quickly
quictls
quiescent
quiet
quiltimport
quinlan
quirks
quit
quite
quitter
quitting
quopri
quoprimime
quot
quota
quotation
quote
quotechar
quoted
quotes
quotetabs
quotient
quoting
quux
qux
quynh
ra
rabbit
race
racefix
races
racily
racing
racy
rad
radd
raddr
radians
radical
radio
radiobutton
radiobuttons
radius
radix
rafael
rafaelgss
ragged
rahat
raii
rainbow
rainer
raining
raise
raised
raisefailure
raises
raising
raisinten
raj
raja
rajlich
ralphson
ram
ramirez
ran
rand
randall
randbelow
randbytes
randint
random
randombytes
randomfill
randomfillsync
randomint
randomize
randomly
randomness
randomuuid
randrange
range
rangeerror
ranges
rangle
rank
raphael
rapid
rapidly
rare
rarely
raspberry
raspbian
raster
rate
ratelimiter
rather
rathi
rating
ratio
rational
rationale
rationals
ratios
ravn
raw
rawarray
rawdata
rawheaders
rawinput
rawiobase
rawmode
rawpacket
raws
rawsock
rawtext
rawtrailers
rawturtle
rawvalue
ray
raymond
raz
razvanbh
rbrace
rbufsize
rcdata
rceil
rcfile
rcvbuf
rde
rdev
rdivmod
rdonly
re
reach
reachability
reachable
reached
reaches
reaching
react
reacting
reactor
read
readability
readable
readableended
readablestate
readablestream
readall
readbuffer
readdir
readdirsync
readdouble
reader
readerror
readers
readfile
readfilesync
readfloat
readfp
readhostobject
readily
reading
readingmore
readint
readintbe
readintle
readinto
readkey
readline
readlines
readlink
readlinksync
readme
readmode
readmodule
readonly
readrc
reads
readsize
readstart
readstop
readstream
readsync
readthedocs
readtimeout
readtransport
readuint
readuintbe
readuintle
readv
ready
readystate
real
realaudio
realfile
realistic
reality
realize
realizing
realloc
reallocate
really
realm
realname
realoutfile
realpath
realpathsync
realpos
reals
realtime
reap
reaped
reapply
rearrange
rearranged
rearranging
reason
reasonable
reasonably
reasoning
reasons
reassign
rebase
rebased
rebasing
rebecca
rebind
rebinding
rebound
rebuild
rebuilding
rebuilds
rebuilt
rec
recalculate
recall
receipt
receive
received
receiver
receivers
receives
receiving
recent
recently
reception
recheck
recip
recipe
recipes
recipient
recipients
reckless
recknagel
reclaim
reclaimed
recognised
recognize
recognized
recognizes
recognizing
recolorize
recommend
recommendation
recommended
recommends
recompilation
recompile
recompiled
recompiling
recompute
reconcile
reconfigure
reconnect
reconnected
reconnecting
reconstruct
reconstructor
record
recorded
recording
records
recount
recover
recoverable
recovery
recreate
recreated
recreating
recreation
rect
rectangle
rectangular
rection
recurring
recurse
recursed
recurses
recursing
recursion
recursionerror
recursionlimit
recursive
recursively
recv
recvar
recvbuffersize
recvfds
recvfrom
recvmsg
recycled
red
redact
redacted
redeclaration
redeclarations
redeclared
redef
redefine
redefined
redefinition
redhat
redir
redirect
redirected
redirecting
redirection
redirections
redirector
redirects
redis
rediscache
redisplay
redistribute
redistributing
redistribution
redistributors
redo
redraw
reduce
reduced
reducer
reduces
reducing
reduction
redundancy
redundant
reedy
reenable
reentrant
reevaluation
reexport
ref
refack
refactor
refactored
refactoring
refael
refcount
refed
refer
reference
referenced
referenceerror
references
referencing
referential
referer
referred
referrer
referring
refers
refine
refined
refinement
refinements
reflect
reflected
reflects
reflexivity
refloat
reflog
reflogexpire
reflogs
refname
refnames
refold
reformat
reformatted
reformatting
refrain
refrains
refresh
refreshed
refreshes
refreshing
refs
refspec
refspecs
reftable
refuse
refused
refuses
refusing
reg
regard
regarded
regarding
regardless
regards
regen
regenerate
regenerated
regex
regexec
regexes
regexlexer
regexlexermeta
regexp
regexps
reggi
region
regions
register
registered
registering
registername
registerresult
registers
registration
registrations
registries
registry
regr
regress
regressed
regression
regressions
regular
regularly
regulation
rehash
rehype
reid
reimplement
reimplemented
reimplementing
reindent
reinit
reinitialize
reinstall
reinstated
reinterpret
reintroduce
reis
reiss
reitz
reject
rejected
rejecting
rejection
rejections
rejectionsmode
rejects
rejoin
rel
reland
relate
related
relating
relation
relations
relationship
relationships
relative
relatively
relax
relaxed
relay
relaying
release
released
releaselevel
releaselock
releaser
releasers
releases
releasing
relevance
relevant
reliability
reliable
reliably
reliance
relicensing
relied
relief
relies
relink
relnotes
reload
reloading
relpath
rely
relying
rem
remain
remainder
remaining
remains
remap
remark
remarkrc
remediation
remedy
remember
remembered
remembers
remind
reminder
remote
remoteaddress
remotecall
remotefamily
remotely
remoteport
remotequeue
remotes
removal
removals
remove
removechild
removecolors
removed
removedirs
removefilter
removehandler
removeheader
removelistener
removeoption
removeprefix
removeresult
removes
removesuffix
removing
ren
rename
renamed
renamelimit
renames
renamesync
renaming
render
renderable
renderables
renderabletype
rendered
renderer
renderheaders
renderhook
rendering
renderresult
renders
rene
reneg
renegotiate
renegotiation
renew
renormalize
renoth
reopen
reopened
reorder
reordered
reordering
reorganize
reorganized
rep
repack
repacked
repacking
repaint
repair
repaired
reparent
reparse
repeat
repeatability
repeatable
repeated
repeatedly
repeating
repeats
repetition
repetitions
rephrase
repl
replace
replaceable
replaced
replacedialog
replaceme
replacement
replacements
replaces
replacing
replay
replayed
replaying
replays
repldefaults
replicate
replicating
replied
replies
replmode
repls
replserver
replvar
reply
repo
repopulate
report
reported
reporter
reporters
reporthook
reporting
reportonsignal
reports
repos
reposition
repositories
repository
repr
represent
representable
representation
represented
representing
represents
reprlib
reprocessing
reproduce
reproduced
";

pub const WORDS_15: &'static str = "reproducible
reproducing
republic
republish
reputations
req
reqheight
reqs
reqts
request
requestcert
requested
requestfield
requesting
requestline
requestmethods
requestor
requests
requestsocket
requesttimeout
require
required
requireid
requirement
requirements
requirementset
requires
requirestack
requiring
requote
reqwidth
reqwrap
reraise
reraised
reraises
reread
rerere
rerun
res
rescale
rescan
reschedule
rescheduled
research
resemble
resembles
resent
reserve
reserved
reserves
reset
resetbuffer
resetcache
resetcalls
resetcolorizer
resetfont
resetoutput
resets
resetting
resident
resilient
resistant
resizable
resize
resized
resizemode
resizing
resolution
resolutions
resolve
resolveany
resolvecaa
resolvecname
resolved
resolveentity
resolvelib
resolvenaptr
resolveobject
resolveptr
resolver
resolvers
resolves
resolvesoa
resolvetxt
resolving
resort
resource
resourcedenied
resourcehandle
resourcelimits
resourcereader
resources
resourceusage
resp
respdig
respect
respected
respectful
respecting
respective
respectively
respects
respond
responded
responding
responds
respondwithfd
response
responsecls
responseerror
responses
responsesocket
responseurl
responsibility
responsible
responsive
rest
restart
restarted
restarting
restarts
restartvar
restfulclient
restore
restored
restores
restorestdout
restoring
restrict
restricted
restricting
restriction
restrictions
restrictive
restricts
restringmatch
restructure
restructured
restructuring
restype
resubcallable
result
resulted
resulting
results
resume
resumed
resumes
resuming
resumption
resurrect
resurrected
ret
retailers
retain
retained
retaining
retains
retcode
retention
rethrow
retire
retired
retitle
retr
retried
retries
retrievable
retrieval
retrieve
retrieved
retrieves
retrieving
retroactively
retry
retrydelay
retryerror
retrying
return
returncode
returncodes
returned
returning
returnonexit
returns
returnvalue
retval
reusable
reuse
reuseaddr
reused
reusedsocket
reuseport
reuses
reusing
rev
revamped
revar
reveal
revealed
reverse
reversed
reversible
reversion
reversions
revert
reverted
reverting
reverts
revise
revised
revising
revision
revisions
revocation
revoke
revoked
revoptions
revs
rewind
rewinding
reword
reworded
rework
reworked
rewrite
rewrites
rewriting
rewritten
rewrote
rex
rexagod
reynolds
rez
rfer
rfile
rfind
rfloor
rfloordiv
rglob
rhel
rho
rhys
ri
rica
ricardo
rice
rich
richard
richardlau
richcast
richhandler
richie
richmond
richnologies
richrenderable
richreprresult
richtext
rick
ricky
rickyes
rico
rid
ridge
ridgewell
riff
rifkin
right
rightarrow
rightharpoonup
rightmost
rights
rightwards
rigo
riley
riluvan
rimraf
rindex
rinfo
ring
ripkens
risc
riscv
rise
rishabh
risk
risking
risks
risky
rjust
rlcompleter
rli
rlidwka
rlist
rlock
rlshift
rluvaton
rmatmul
rmdir
rmdirsync
rmenu
rmod
rmsync
rmtree
rmul
ro
roadmap
roaming
rob
robert
robertkowalski
roberts
robertson
robin
robinson
robot
robotmermaid
robotparser
robust
robustly
robustness
rock
rocket
rocky
rod
roderick
rodger
rodr
rodrigo
rodriguez
roe
roee
roff
roger
rogers
rogertyang
rogue
rohan
rokita
role
roll
rollback
rolled
rolling
rollover
rollup
rom
romain
roman
romania
romaniello
romankl
romuald
ron
ronag
ronald
rongjian
ronkorving
room
root
rootca
rootdir
rooted
rootnode
roots
rootwindow
rootx
rooty
ror
rosario
rosaxny
rose
roseman
rosen
roskind
rossmann
rossum
rot
rotate
rotated
rotating
rotation
roth
rough
roughly
round
rounded
rounding
rounds
roundtrip
routable
route
routed
router
routerman
routes
routine
routines
routing
row
rowconfigure
rowe
rows
rowspan
roy
royalty
rpar
rpartition
rpath
rpcclient
rpchandler
rpcproxy
rpcserver
rpi
rpow
rreverser
rrshift
rrtype
rsa
rsaoaepparams
rsassa
rset
rshift
rsplit
rstrip
rststream
rsub
rsync
rtfformatter
rtruediv
rtti
rtype
ru
ruben
rubikscraft
rubout
ruby
rubys
rugvip
rule
rulefunc
ruler
rules
run
runbenchmark
runcall
runcode
runcommand
runctx
runeval
runge
runhook
runin
runincontext
runmain
runnable
runner
runners
running
runonly
runpy
runs
runscript
runsource
runstores
runtest
runtime
runtimeerror
runtimes
runtimewarning
rusage
ruslan
russell
russia
russian
russo
rust
rusty
ruxandra
ruy
ruyadorno
rvagg
rval
rwanda
rwlocks
rxor
ry
ryan
ryanmahan
rybak
ryuichi
ryzokuken
sa
sabella
sabiq
sad
sadly
safari
safe
safecrlf
safefilecache
safegetenv
safeguard
safely
safepromise
safepromiseall
safer
safeseh
safeset
safest
safetransport
safety
safia
safronov
sagar
sage
saghul
sagi
sagirk
sahai
said
saimadhav
sait
saito
sajidul
sajip
sake
sakhawalkar
sakthipriyan
salame
sale
salikhmetov
salman
salt
saltlength
salvador
salzburg
sam
same
sameer
samefile
sameopenfile
samestat
samevaluezero
sami
saml
sample
samples
sampling
sampson
samuel
san
sandbox
sandboxed
sandboxing
sande
sanders
sandy
sane
saner
sanitize
sanitized
sanitizer
sanity
sans
santa
santiago
santigimeno
santos
saper
sapics
sapkin
sarah
sarahmeyer
sarat
sarath
sarmiento
sas
sascha
sash
sashes
sasidharan
sat
satisfiable
satisfied
satisfies
satisfy
satisfying
sato
saturation
saturday
saudi
save
saveas
saved
savefiledialog
saves
saving
savings
savio
saw
sawant
sax
saxexception
saxutils
say
sayhello
saying
says
sbin
scaffolding
scalar
scalars
scale
scaled
scales
scaling
scalkpdev
scan
scandir
scanned
scanner
scanning
scans
scatological
scatter
scavenge
sce
scenario
scenarios
scenes
schamberg
sched
schedule
scheduled
scheduler
schedulers
schedules
scheduling
scheel
schema
schemas
schematype
scheme
schemes
scherer
schindelin
schlenkrich
schlight
schlueter
schmidt
schneeweisz
schonning
school
schouten
schroeder
schulhof
schwab
schwartz
scientific
scissors
scope
scoped
scopeid
scopes
scoping
score
scorecard
scores
scott
scproxy
scratch
scream
screen
screenheight
screeninfo
screenname
screens
screenwidth
screwed
screwy
script
scriptbinding
scriptcompiler
scriptdir
scripted
scriptfile
scripting
scriptlet
scriptmaker
scripts
scroll
scrollable
scrollbar
scrollbars
scrolled
scrolledcanvas
scrolledlist
scrolledtext
scrolling
scrollregion
scrolls
scrub
scrypt
scryptsync
scy
sdist
sdists
se
sea
seal
seals
sean
search
searchable
searchbase
searchdialog
searched
searchengine
searches
searchfiles
searching
searchparams
searchphrase
searchscope
searcy
sebastiaan
sebastian
sebastien
sebdeckers
sec
secadv
secidentityref
secitemimport
seckeychainref
second
secondarily
secondary
seconds
secp
secrecy
secret
secrets
secs
sect
section
sectioned
sectionname
sections
sectname
sectrustref
secure
secureconnect
securecontext
securely
secureoptions
securepair
secureprotocol
secureserver
securing
security
securityconst
sed
sedoi
see
seealso
seed
seeing
seek
seekable
seeked
seeking
seeks
seem
seemingly
seems
seen
sees
seg
segev
segfault
segfaulted
segfaulting
segfaults
segment
segmentation
segments
segu
segv
seishun
sel
select
selectable
selected
selecting
selection
selections
selective
selectively
selectmode
selector
selectors
selects
selectselector
self
selfdot
selfirst
selfref
sell
sellast
selling
sem
semantic
semantically
semantics
semaphore
semaphores
semi
semicolon
semicolons
semigradsky
semis
semlock
semver
sen
send
sendall
sendbuffersize
senddate
sendemail
sender
sendfds
sendfile
sendfilemode
sendhandle
sending
sendmail
sendmsg
sends
sendto
sendtrailers
senegal
senkpiel
sense
sensible
sensibly
sensitive
sensitivity
sent
sentence
sentences
sentinel
sentinels
sep
separable
separate
separated
separately
separates
separating
separation
separator
separators
sepi
seps
september
seq
seqs
sequence
sequencer
sequences
sequencing
sequential
sequentially
sequoia
serdes
serf
sergei
sergey
serhiy
serial
serializable
serialization
serialize
serialized
serializer
serializes
serializeurl
serializing
serialnumber
series
serif
serious
seriously
serkan
serve
served
server
serverhtmldoc
serverless
serverlisten
servername
serverproxy
serverrequest
serverresponse
servers
serves
service
services
servicing
serving
sess
session
sessions
sessiontimeout
set
setaad
setaccessor
setattr
setauthtag
setautopadding
setblocking
setbreakpoint
setbroadcast
setbytestream
setcbreak
setcontext
setcookedpat
setdefault
setdelegate
setegid
setencoding
setengine
seteuid
setexport
setfeature
setfips
setformatter
setfunction
setgid
setgroups
seth
setheader
setheaders
setheading
setimmediate
setinterval
setit
setitem
setitems
setitimer
setkeepalive
setkeycert
setlevel
setlocal
setlocale
setloggerclass
setmenu
setminus
setmode
setname
setnodelay
setnull
setoption
setoptions
setpat
setpos
setpriority
setprivatekey
setproctitle
setprofile
setprompt
setproperty
setprototype
setprototypeof
setpublickey
setraw
setrawmode
sets
setservers
setsid
setsize
setsnicallback
setsockopt
setstate
setsystemid
settable
settarget
setter
setters
settext
setticketkeys
settime
settimeout
setting
settingchange
settings
settitle
settled
settrace
";

pub const WORDS_16: &'static str = "setuid
setundobuffer
setup
setupapp
setupclass
setuphistory
setuphooks
setupmaster
setupmodule
setupstdout
setupterm
setuptestcase
setuptools
setvar
setweak
setx
sety
seven
several
severe
severity
sget
sgi
sha
shadow
shadowed
shadowing
shadowrealm
shah
shaikh
shailesh
shake
shakeel
shall
shallow
shallowly
shankar
shanmugam
shape
shaped
shapepoly
shapes
shapesize
shard
shards
share
shareable
shareablelist
shared
sharedctypes
sharedlib
sharedmemory
sharer
shares
sharing
sharma
sharp
shasum
shasums
shatskiy
shaun
shaw
she
shebang
shed
shedpage
sheet
sheetjs
sheikh
shekhawat
shelf
shell
shellcheck
shelled
shelley
shells
shellsidebar
shelve
shemsedinov
shen
sherman
sherwood
shi
shield
shift
shifting
shigeki
shilo
shim
shims
shinnosuke
shinya
ship
shipped
shipping
ships
shirekar
shisama
shivanth
shiya
shiyas
shlex
shlib
sho
shobhit
shogun
shogunpanda
shopping
short
shortcut
shortcuts
shorten
shortened
shorter
shortest
shorthand
shorthands
shortlog
shortly
shortname
shorts
shortstat
shot
should
shouldn
shouldstop
show
showcases
showcontents
showed
showemail
showerror
showhidden
showinfo
showing
shown
showproxy
showroot
shows
showtip
showtraceback
showturtle
showwarning
showwarnings
shrestha
shrink
shrinking
shrinks
shrinkwrap
shrujal
shubham
shubheksha
shuffle
shuffles
shull
shut
shutdown
shutdownwrap
shute
shutil
shuts
shutting
si
sia
siamese
sibling
sid
siddharth
siddhartha
side
sideband
sidebar
sides
sideways
sidwebworks
sig
sigabrt
sigbreak
sigbus
sigchld
sigcont
sigh
sighup
siginfo
sigint
siginterrupt
sigkill
sigma
sigmask
sign
signal
signalcode
signaled
signaling
signalled
signalling
signals
signalwrap
signature
signatures
signed
signfinal
significance
significand
significant
significantly
signifies
signify
signifying
signing
signingkey
signoff
signs
signtool
signtraits
signum
sigpending
sigpipe
sigquit
sigsegv
sigset
sigstop
sigterm
sigtrap
sigtstp
sigttou
sigusr
sigwait
sigwinch
sigxfsz
sikelianos
sikora
silbermann
silence
silenced
silent
silently
silicon
silly
silva
silver
silverwind
sim
simbule
simd
simdjson
simdutf
simen
simeq
similar
similarity
similarly
simon
simov
simple
simplecdata
simpledialog
simplefilter
simplehandler
simplejson
simplepath
simplequeue
simpler
simplereader
simplest
simplicity
simplification
simplified
simplifies
simplify
simplifying
simplistic
simply
sims
simulate
simulates
simulating
simulation
simulator
simultaneous
simultaneously
simutf
sin
since
sindrexie
singapore
singh
single
singledispatch
singleton
singletons
singular
sink
sinkhaha
sint
sio
sip
siphash
sit
site
sitebuiltins
sitecustomize
sitepackages
sites
sits
sitting
situation
situations
sivaprasanna
sivervik
six
size
sized
sizehint
sizelist
sizeof
sizes
sizesize
sjis
sjoerd
skeleton
skenqbx
ski
skill
skip
skipif
skipkeys
skiplist
skippable
skipped
skippedentity
skipping
skips
skiptest
skipunless
skog
skokan
skomski
skovhus
skurydzin
skype
skywalker
slab
slack
slackware
slang
slash
slashes
slate
slated
slave
slaves
sleep
sleeping
slen
slice
sliced
slices
slicing
slicings
slider
sliding
slight
slightly
slim
sline
slip
slist
sloppy
slot
slots
slotstate
slow
slowbuffer
slower
slowest
slowloris
slows
slowtostring
slurp
slurped
small
smaller
smallest
smalloc
smalltalk
smart
smarter
smartos
smatsu
smile
smiley
smith
smoke
smoker
smolenchuk
smoothing
smtplib
smtputf
smudge
smuggle
smuggling
snake
sname
snap
snapshot
snapshotable
snapshotdata
snapshots
snapshotted
snapshotting
sndbuf
snek
snell
sni
snicallback
snider
sniff
snippet
snippets
snook
snow
snprintf
so
soa
soabi
sobol
social
sock
sockaddr
socket
socketaddress
socketerror
socketio
socketios
socketpair
sockets
socketserver
sockettimeout
sockio
sockname
socks
sockthread
socktype
soft
softkwlist
software
soh
sol
solaris
sold
soldea
sole
solebox
solely
solicit
solid
solo
solomon
solution
solutions
solve
solved
some
somebody
someday
somefunction
somehow
someone
somepackage
someproject
something
sometime
sometimes
someversion
somewhat
somewhere
sommer
soname
sonaysevik
song
sonnenschein
soon
soonest
sophisticated
sorarize
sorry
sort
sorted
sorter
sorting
sorts
sosa
sosnowski
sota
sotillo
sound
source
sourcecode
sourced
sourceforge
sourceline
sourcelines
sourceloader
sourcemap
sourcemaps
sources
sourcestart
sourceurl
south
southern
souza
space
spaced
spaces
spacing
spades
spadesuit
spain
spam
span
spanish
spanning
spans
sparc
sparkassen
sparse
sparsely
spawn
spawned
spawning
spawns
spawnsync
spawnv
speak
speakers
speaking
special
specialform
specialised
specialization
specialize
specialized
specially
specials
specific
specifically
specification
specifications
specificity
specifics
specified
specifier
specifiers
specifierset
specifies
specify
specifying
spectrum
sped
speed
speeding
speeds
speedup
speedy
spell
spelled
spelling
spellings
spend
spending
spends
spent
sphinx
spies
spigolon
spin
spinbox
spinner
spinnercolumn
spinners
spirit
spit
spite
spkac
spki
splice
split
splitattr
splitdict
splitdrive
splitext
splithost
splitlines
splitlist
splitpasswd
splitport
splitquery
splitresult
splitroot
splits
splittag
splitter
splitting
splittype
splituser
splitvalue
sponsor
sponsors
spoof
spoofed
spoofing
spoon
sporadic
spot
spotlight
spotted
spread
spreading
spring
sprint
sprintf
spurious
spy
sqlite
sqsubset
sqsubseteq
sqsupset
sqsupseteq
square
squared
squares
squash
squashed
squashing
squeeze
squeezed
squeezer
squeezing
squelch
squelched
squid
srcdir
srcelement
srcfile
sre
sreepurnajasti
sri
srinivas
srivastava
srwindow
ssize
sslciphersuite
sslclose
sslcontext
sslerror
sslhandshake
sslkey
sslkeylogfile
sslmethod
sslobj
sslobject
sslproto
sslprotocol
sslread
sslreadfunc
sslsession
sslsetiofuncs
sslsocket
ssltransport
sslverify
sslwrap
sslwrite
sslwritefunc
ssock
stability
stabilize
stable
stack
stackbrowser
stackerror
stacking
stacklevel
stackoverflow
stacks
stacksize
stacksummary
stacktrace
stacktreeitem
stackviewer
staff
stage
staged
stages
staggered
staging
stale
stall
stalled
stalling
stamp
stamps
stan
stand
standalone
standard
standarderror
standardize
standardized
standards
standing
stands
stapling
star
starkwang
starlark
starmap
starr
starred
stars
start
startat
startatindex
startcom
startcontainer
startdocument
started
startelement
startelementns
startend
startexecution
startf
startfile
startindex
starting
startline
startpos
starts
startswith
starttag
starttest
starttestrun
starttime
starttls
startup
startupinfo
starvation
stash
stashed
stat
stata
state
stated
stateful
stateless
statement
statements
states
statfs
stati
statinfo
stating
statistical
statistics
stats
statsync
status
statusbar
statuscode
statuses
statushints
statusmessage
statute
statvfs
statwatcher
stay
stays
stddev
stderr
stdev
stdin
stdinputfile
stdio
stdiofile
stdlib
stdout
stdoutputfile
steal
steen
steering
stefan
stefania
stefanmb
stefano
steiner
steinhardt
stelian
stem
stenberg
step
stepanyan
stephan
stephen
stepped
stepping
steps
stern
steve
steven
stevens
steward
stewards
stewart
stichting
stick
sticky
still
stock
stockton
stoebich
stojanovic
stolen
stop
stopall
stopcoverage
stopindent
stopiteration
stopline
stoppage
stopped
stopping
stops
stoptest
stoptestrun
stopwatch
storage
storchaka
store
stored
stores
storing
story
stouder
strace
straight
straightened
strange
strategic
strategies
strategy
stray
strbuf
strcasecmp
strclass
strcpy
strdup
stream
streambase
streamduplex
streamed
streamer
streamerror
streamhandler
streaming
streamline
streamlined
streampipe
streamreadable
streamreader
streamreq
streams
streamwrap
streamwrapper
streamwritable
streamwriter
street
strength
strengthen
strenum
strerror
stress
stretch
stretched
strftime
strict
strictequal
strictequals
stricter
strictly
strictness
stride
strike
strikethrough
string
stringbytes
stringdecoder
stringent
stringglobber
stringified
stringify
stringifying
stringio
stringprefix
strings
stringtoflags
stringvar
strip
stripnl
stripped
stripping
strips
stripspace
strlcpy
strlen
stroke
strong
stronger
strongly
strorbytespath
strpath
strptime
strtobool
struct
structs
structural
structure
structured
structures
structuring
strvec
stub
stubs
stuck
student
studio
study
stuff
stufft
stupid
stuttgart
style
styled
styledefs
styleguide
stylename
styles
stylesheet
stylestack
styletext
styletype
styling
stylistic
stylize
stype
su
suarez
sub
subargs
subarray
subclass
subclasscheck
subclassed
subclasses
subclasshook
subclassing
subcls
subcmd
subcommand
subcommands
subdebug
subdir
subdirectories
subdirectory
subdirs
subfolders
subheading
subitem
subj
subject
subjectaltname
subjects
subkey
subkeys
sublicense
sublicenses
sublist
submenu
submission
submit
submits
submitted
submitting
submod
submodule
submodules
subn
subname
subnet
subnets
suboptimal
";

pub const WORDS_17: &'static str = "subpackage
subpart
subparts
subpath
subpattern
subproc
subprocess
subprocesses
subprograms
subproject
subresource
subroutine
subroutines
subs
subscr
subscribe
subscribed
subscriber
subscribers
subscript
subscriptable
subscripted
subscripting
subscription
subscriptions
subscripts
subsection
subsequence
subsequent
subsequently
subset
subseteq
subsets
subshell
subst
substance
substantial
substantially
substitute
substituted
substituting
substitution
substitutions
substr
substring
substrings
subsystem
subsystems
subtest
subtests
subtitle
subtle
subtlecrypto
subtly
subtract
subtracting
subtraction
subtracts
subtrahend
subtree
subtrees
subtype
subtypes
subtyping
subunit
subversion
subwarning
succ
succeed
succeeded
succeeds
succeq
success
successes
successful
successfully
successive
successively
successor
successors
such
suck
sudo
suff
suffer
suffice
sufficient
sufficiently
suffix
suffixed
suffixes
sugar
suggest
suggested
suggesting
suggestion
suggestions
suggests
suicide
suit
suitable
suite
suitecontext
suites
suits
suixinlei
sullivan
sum
suman
summaries
summarize
summarized
summary
summit
sumners
sums
sun
sunday
sunder
sung
sunken
sunos
sunset
sup
super
superclass
superclasses
superctor
superfluous
supermodule
superproject
supers
superscript
superseded
superset
suport
supplement
supplemental
supplementary
supplemented
supplied
supplies
supply
supplying
support
supported
supporting
supports
supportsabs
supportsbytes
supportsfloat
supportsindex
supportsint
supportsround
suppose
supposed
supposedly
suppress
suppressed
suppresses
suppressing
suppression
supset
supseteq
sur
suraiyah
sure
suresh
surface
surl
surprise
surprises
surprising
surrender
surrogate
surrogatepair
surrogatepass
surrogates
surrounded
surrounding
survey
survive
surya
suryanarayana
susceptible
suse
suspected
suspend
suspended
suspension
suspicion
suspicious
sustained
sutherland
svalue
svetlikova
svgformatter
svid
svnimport
swallow
swallowed
swallowing
swap
swapcase
swapped
swapping
swaps
swathi
sweden
swedish
sweep
sweet
sweetapp
switch
switched
switches
switching
switzerland
sxa
sy
sym
symbol
symbolic
symbols
symlink
symlinked
symlinks
symlinksync
symmetric
symmetry
symptom
symref
symtable
syn
sync
synced
synch
synched
synchronize
synchronized
synchronous
synchronously
syncing
syncmanager
synonym
synonyms
synopsis
syntactic
syntactically
syntax
syntaxerr
syntaxerror
syntaxes
syntaxwarning
synthesize
synthetic
sypnosis
syria
sys
syscall
syscalls
sysconf
sysconfig
sysconfigdata
sysctl
sysfs
sysid
syslog
sysloghandler
syspath
sysroot
system
systematic
systemd
systemerror
systemexit
systemid
systempager
systemrandom
systemroot
systems
systemtap
systemversion
sysv
szabolcsit
szewczak
szymon
ta
tab
tabbed
tabbedpages
taberror
tabify
table
tables
tabnanny
tabpage
tabs
tabsize
tabular
tabulate
tabwidth
tac
tack
tadhg
tag
tagawa
tagdefs
tagged
tagger
tagging
tagname
tagnames
tags
tail
tailor
taiwan
takagi
takata
take
takecoverage
takefocus
taken
takes
takewhile
taking
takuro
tal
talk
talked
talking
talks
tall
tam
tamil
tampered
tampering
tan
tanaka
tandel
taneli
tanuja
tanvi
taocp
tap
tape
tar
tarang
tarball
tarballs
tarerror
tarfile
target
targeted
targeting
targetlist
targetpath
targetpython
targets
targos
tarinfo
tarjei
tars
tarun
task
taskgroup
taskrunner
tasks
taskset
tatieze
tau
taught
tautology
tayar
taylor
tbreak
tcgetattr
tclerror
tcpserver
tcpwrap
tcsaflush
tcsetattr
tcy
tdef
tdemo
te
tea
teach
teaches
team
teams
teapot
tear
teardown
teardownclass
teardownmodule
tearoff
technical
technically
technique
techniques
technological
technologies
technology
teddy
tedgi
tee
tejwani
tel
telenord
tell
telling
tellnes
tells
telnet
tem
temp
tempd
tempdir
tempdirectory
tempfile
tempfilename
template
templates
templating
temple
temporarily
temporary
temptation
tempting
ten
tenant
tend
tends
tense
tentative
tentativeness
tenth
term
terminal
terminals
terminaltheme
terminate
terminated
terminates
terminating
termination
terminator
terminfo
terminology
termios
terms
ternaries
ternary
terrible
terrier
territories
territory
terry
terse
test
testable
testcase
testcases
testcfg
testclass
testcontext
tested
tester
testfile
testfunc
testinfo
testing
testloader
testmethodname
testmod
testname
testnapirun
testprogram
testpy
testpypi
testresult
testroot
testrunentered
testrunner
tests
testsrun
testsstream
testsuite
tex
texinfo
text
textbook
textcolumn
textconv
textdecoder
textdomain
textencoder
textframe
textio
textiobase
textiowrapper
textlexer
texts
texttestresult
texttestrunner
texttype
textual
textualize
textually
textvariable
textview
textwrap
textwrapper
tformat
tframe
thai
than
thang
thank
thanks
that
thayil
the
thealphanerd
theanarkh
thefile
thefourtheye
their
theirs
thekemkid
them
theme
themechanged
themed
themename
themes
themestack
themselves
thenable
thenables
theorem
theoretical
theoretically
theory
there
thereby
therefore
therein
thereof
thereto
these
theta
they
thiago
thickness
thin
thing
things
think
thinking
thinks
third
this
thisarg
thisline
thlorenz
tho
thomas
thomson
thor
thorough
thoroughly
thorsten
those
though
thought
thousand
thousands
thread
threaded
threadid
threading
threadingmixin
threadpool
threadpoolwork
threads
threadsafe
threat
threatened
three
threeseconds
threshold
threw
throttle
through
throughout
throughput
throw
throwexception
throwifaborted
throwifnoentry
throwing
thrown
throws
thu
thumb
thumbs
thunder
thursday
thus
thwart
ti
tian
tib
ticehurst
tick
tickcallback
ticket
ticketkeys
tickets
tickinfo
tickprocessor
ticks
tid
tidelift
tidy
tie
tiebreak
tied
tiegs
tier
tierlist
tierney
tiers
ties
tif
tiff
tig
tigetstr
tight
tighten
tightened
tightening
tighter
tightly
tijhof
tilde
till
tilt
tilted
tim
time
timed
timedelta
timeend
timeframe
timegm
timeline
timelog
timely
timeout
timeouterror
timeoutexpired
timeouts
timer
timerhandle
timerify
timers
timerwrap
times
timeservers
timespec
timestamp
timestamps
timetuple
timezone
timezones
timing
timings
timo
timothy
timothygu
timur
tiny
tip
tips
tipwindow
tis
title
titlebar
titlecase
titled
titles
tkfiledialog
tkfixedfont
tkfont
tkinter
tkraise
tksimpledialog
tktextfont
tla
tlsclienterror
tlsdefault
tlsext
tlssocket
tlstlssocket
tlsversion
tlswrap
tmpdir
tmpfile
tmpnam
tniessen
to
toaddrs
toarray
toascii
tobias
toboolean
tobuf
tobytes
toc
toctree
today
todd
todict
toenc
tofile
together
toggle
toggled
toggles
toggling
tojson
tok
token
tokeneater
tokenerror
tokenization
tokenize
tokenizer
tokenlist
tokens
tokensource
tokenstring
tokentype
toki
toks
told
tolerance
tolerant
tolerate
tolerated
tolist
tolocal
tolocalchecked
tolocalestring
tolowercase
tom
tomas
tomcoded
tomeromri
toml
tomli
tomllib
ton
tone
tons
tony
too
toobject
took
tool
toolchain
toolchains
tooling
toolkit
tools
toolset
tooltip
tooltipbase
tooltips
toordinal
tootallnate
top
topdown
topfd
topic
topics
toplevel
topmost
topo
topological
topologically
toprimitive
topvisible
torn
torque
tort
tortious
torvalds
toss
tostring
tostringtag
total
totallength
totally
totalmem
totalsize
tottime
touch
touched
touches
touching
tounicode
toupper
touppercase
tousvstring
toward
towards
toweb
towellformed
tower
towncrier
townsend
tox
tparm
tpflags
trac
trace
traceback
tracebacklexer
tracebacks
tracebacktype
tracecallback
traced
tracemalloc
tracepromise
tracer
tracers
traces
tracing
tracingchannel
track
tracked
tracker
tracking
tracks
tracy
trade
trademark
trademarks
tradeoff
tradition
traditional
traditionally
traffic
trail
trailer
trailers
trailing
train
training
traits
trampoline
tran
trans
transaction
transactional
transactions
transcode
transcoding
transfer
transferable
transferlist
transferred
transferring
transfers
transform
transformation
transformed
transformer
transforming
transforms
transformstate
transient
transition
transitional
transitions
transitive
translatable
translate
translated
translates
translating
translation
translations
translator
translators
transmission
transmit
transmitted
transmitting
transp
transparent
transparently
transpilation
transpiled
transpiler
transplant
transport
transports
transpose
trap
trapped
traps
trash
travel
traversable
traversal
traversalerror
traversals
traverse
traversed
traverses
traversing
travis
travisci
treat
treated
treating
treatment
treats
treaty
tree
treeish
treeitem
treenode
trees
treeview
trent
trevnorris
trevor
tri
triage
triager
triagers
triaging
trial
triangle
triangleleft
triangleq
triangleright
triangular
trick
tricked
tricks
tricky
trident
tried
tries
trigger
triggerasyncid
triggered
triggerid
triggering
triggers
trim
trimmed
trinidad
trip
triple
triples
triplet
triplets
tripped
tristan
tristian
trivial
trivially
trivikr
trivikram
troff
trott
trotta
trouble
trsock
tru
true
truecolor
truediv
truetype
truly
trunc
truncate
truncated
truncates
truncating
truncation
trunk
";

pub const WORDS_18: &'static str = "trust
trustcor
trusted
trusts
truststore
truth
truthy
try
trycatch
trying
tsconfig
tshemsedinov
tsofan
tspan
tspecials
tsvettsikh
ttinfo
tty
ttype
ttys
ttywrap
tucker
tue
tuesca
tuesday
tugra
tuininga
tune
tuning
tunisia
tunnel
tunneling
tunnicliffe
tunniclm
tup
tuple
tuples
turbofan
turckheim
turn
turned
turner
turning
turns
turtle
turtledemo
turtlegraphics
turtles
turtlescreen
turtleshape
tushar
tutorial
tvars
tvos
tweak
tweaked
tweaking
tweaks
tweet
twelve
twice
twisted
twitter
two
ty
tyler
typ
type
typea
typealias
typealiastype
typeb
typechecker
typechecking
typecnt
typecode
typed
typedarray
typedarrays
typeddict
typeddictmeta
typeddicts
typedef
typeerror
typefix
typeguard
typeinfo
typeis
typemap
typename
typeof
types
typesafe
typescript
typeset
typeshed
typesseq
typetype
typevar
typevartuple
typical
typically
typing
typings
typo
typofix
typofixes
typographical
typography
typos
tzdata
tzfile
tzif
tzinfo
tzname
tzpath
tzset
tzsign
ua
uac
uannecessary
ub
ubsan
ubuntu
ubyte
uc
uchar
uchiha
uclibc
ucs
ud
udiff
udp
udpate
udpv
udpwrap
ue
ueno
uf
ufb
ufe
ufeff
uff
ufr
ug
ugly
ui
uid
uint
uintmax
uiref
uit
ujjwal
uk
ukasz
ul
ulabel
ulan
ulimit
ulises
ulisesgascon
ulong
ulonglong
ulp
ultimate
ultimately
umair
umask
umbers
umount
un
unable
unacceptable
unacceptably
unacknowledged
unaffected
unalias
unaligned
unaltered
unambiguous
unambiguously
uname
unary
unauthorized
unavailable
unaware
unbalanced
unbind
unblock
unblocked
unblocks
unborn
unbound
unbounded
unbreak
unbuffered
unc
uncancel
uncatchable
uncaught
unchanged
unchecked
unclear
unclosed
uncombined
uncomment
uncommitted
uncommon
uncompress
uncompressed
unconditional
unconflicted
unconnected
unconstrained
unconsume
unconsumed
uncontrolled
uncork
uncovered
uncurrythis
und
undeclared
undecoded
undef
undefined
undeprecated
under
underflow
undergo
underline
underlined
underlying
underscore
underscored
underscores
understand
understanding
understands
understood
underway
undesirable
undestroy
undici
undisplay
undo
undobuffersize
undocumented
undodelegator
undolist
undone
unecessary
unencoded
unencrypted
unenforceable
unenroll
unequal
unescape
unescapebuffer
unescaped
unexecutable
unexpected
unexpectedly
unexport
unexpose
unfair
unfiltered
unfinished
unflag
unflake
unfolded
unforeseen
unformatted
unfortunate
unfortunately
unglow
unhandled
unhappy
unhashable
unhelpful
unhexlify
uni
unichr
unicode
unicodedata
unicodeerror
unicodeoutput
unicodetext
unicodewarning
unidata
unified
uniform
uniformly
unify
unimplemented
uninitialised
uninitialized
uninstall
uninstallation
uninstalled
uninstalling
unintended
unintentional
uninteresting
union
unions
uniontype
uniq
unique
uniqueheaders
uniquely
uniqueness
unist
unistd
unit
united
units
unittest
unittests
universal
universally
university
unix
unixconsole
unixes
unixfrom
unknown
unknownhandler
unleak
unless
unlike
unlikely
unlimited
unlink
unlinkat
unlinked
unlinking
unlinksync
unlisted
unload
unloading
unlock
unlocked
unmaintained
unmanaged
unmap
unmapped
unmark
unmarshal
unmask
unmatch
unmatched
unmerged
unmodified
unnamed
unnecesary
unnecessarily
unnecessary
unneeded
unnormalized
unnoticed
unofficial
unorderable
unordered
unpack
unpackb
unpacked
unpacker
unpacking
unparse
unparsed
unpatched
unpicklable
unpickle
unpickleable
unpickler
unpickling
unpinned
unpipe
unpiping
unpleasant
unportable
unpredictable
unprefixed
unprivileged
unprocessable
unprocessed
unprofessional
unqualified
unquote
unquoted
unquoting
unreachable
unread
unreadable
unreasonable
unrecognised
unrecognized
unrecoverable
unredirected
unref
unrefactive
unrefd
unrefed
unreferenced
unregister
unregistered
unrelated
unreleased
unreliable
unreserved
unresolved
unresponsive
unrestricted
unroll
unsatisfied
unsaved
unsent
unserializable
unset
unsetenv
unsets
unshelve
unshift
unsigned
unskip
unsorted
unspec
unspecified
unstable
unstructured
unsubscribe
unsupported
unsure
unt
untabify
unterminated
until
untitled
untouched
untraced
untracked
untransferable
untrusted
untyped
untypical
unusable
unused
unusual
unvalidated
unverifiable
unverified
unwanted
unwatch
unwatchfile
unwind
unwinding
unwise
unwrap
unwrapped
unwrapping
unzip
up
uparrow
upcoming
update
updated
updatepos
updater
updaters
updates
updatesettings
updating
updownarrow
upfront
upgrade
upgraded
upgrades
upgrading
upharpoonleft
upharpoonright
upload
uploaded
uploading
uploadpack
uploads
uplus
upon
upper
uppercase
uppercased
upperdirs
ups
upset
upsilon
upstream
upstreamed
uptime
uptodate
upwards
ur
urandom
uri
urierror
uring
uris
urkade
url
urlbase
urlchar
urlcleanup
urldefrag
urldefragauth
urlencode
urlencoded
urlerror
urlhost
urlinput
urljoin
urllib
urlmatch
urlobject
urlopen
urlopener
urlparse
urlparts
urlretrieve
urls
urlsafe
urlsplit
urltooptions
urlunparse
urlunsplit
urn
uruguay
ury
us
usa
usability
usable
usage
usages
usd
use
usec
usecodecache
useconfigonly
used
useful
usefulness
useglobal
usegmt
useless
user
useragent
userbase
usercfg
userdict
userdiff
userdir
userguide
userhome
userid
userinfo
userland
userlist
username
usernames
userprofile
users
usersite
userstring
userwarning
uses
usestime
usetabs
ushort
using
usingdomains
usr
ustack
ustar
usual
usually
ut
utc
utcoff
utcoffset
utest
utf
util
utilities
utility
utilization
utilize
utils
utime
utimensat
utimes
utm
utmp
uts
uttam
utterly
uu
uuid
uuids
uv
uvexception
uvloop
uvmetricsinfo
uvwasi
ux
uy
uziely
va
vacancy
vadim
vadla
vadzim
vagg
vague
vairamani
vakil
val
valdez
valgrind
valid
validate
validatebuffer
validated
validateint
validatenumber
validateobject
validateoneof
validates
validatestring
validateuint
validating
validation
validations
validator
validators
validity
valign
valname
vals
valuable
value
valued
valueerror
valueerrors
values
valuesview
valueterminal
van
vandyke
vanilla
vann
var
vararg
varargs
variability
variable
variables
variadic
variance
variances
variant
variants
variation
variations
varied
varies
variety
various
varkeywords
varname
varnames
vars
vartrace
vartype
vary
varying
vasili
vass
vastly
vavilov
vazina
vbar
vbptlsuyv
vcbuild
vcbuildbat
vchar
vcsinfo
vcssupport
vdash
vdeturckheim
ve
vec
vector
vectors
vee
velocity
vendor
vendored
vendoring
vendors
venezuela
venv
ver
vera
verb
verbatim
verbose
verbosely
verbosity
verifiability
verification
verified
verifier
verifies
verify
verifycallback
verifyflags
verifying
verifymode
verifyspkac
verlag
verma
vernum
vers
versa
verse
version
versionadded
versionchanged
versioncontrol
versioned
versioninfo
versioning
versions
versus
vert
vertex
vertical
vertically
vertices
very
veto
vevent
vfile
vfork
vger
vi
via
vice
vicente
victim
victor
victory
video
videos
vieira
view
viewable
viewed
viewer
viewframe
viewing
viewitems
viewkeys
views
viewvalues
viewwindow
vii
vilk
villa
villars
vilner
vim
vimdiff
vin
vinay
vincent
vinicius
vintages
violate
violated
violates
violation
violations
violet
vipin
virdi
virtual
virtualenv
virtualevent
virtualized
virtually
vis
visa
viscii
visibility
visible
visit
visited
visiting
vista
visual
visualize
visually
visualstudio
vita
vital
vitaly
vitor
vkurchatkin
vladimir
vladislav
vmin
vmoroz
vohr
void
voidcmd
voidresp
voj
volatile
voltrex
voltrexmaster
volume
volumes
voluminous
volunteering
volunteers
von
vote
voting
voxnest
vozza
vperezma
vpython
vrootheight
vrootwidth
vrootx
vrooty
vscode
vse
vsemozhetbyt
vsevolod
vstack
vtime
vtrus
vtune
vulgar
vuln
vulnerability
vulnerable
vuong
vwait
vxworks
vy
wachi
wade
wadl
wadllib
waechter
wael
wafuwafu
wais
wait
waited
waiter
waiters
waiting
waitpid
waits
waitstatus
waittime
waiver
wake
wakes
wakeup
wakeups
waking
wal
waleed
walk
walked
walker
walking
walks
wall
walter
walukiewicz
wang
want
wanted
wanting
wantobjects
wants
wanttrailers
ward
warm
warn
warned
warning
warnings
warnoptions
warns
warranties
warranty
wars
warsaw
was
wasi
wasm
wasn
wassim
wassuccessful
wastage
waste
wasted
wasteful
wasting
wat
watanabe
watch
watchdog
watched
watcher
watchers
watches
watchfile
watching
watchman
watchos
water
watermark
watilde
watson
wattributes
wav
wave
way
wayne
ways
wbits
wbufsize
wcast
wchar
wday
we
weak
weakcallback
weaker
weakly
weakmap
weakref
weakreference
weakrefs
weakrefset
weakset
weather
web
webassembly
webb
webbrowser
webcrypto
webcryptoapi
webdav
weber
webidl
webp
website
websocket
websockets
webster
webstream
webstreams
wed
wedge
wednesday
week
weekday
weekdayname
weekdays
weekly
weeks
weevers
weewey
wegrzynek
wei
weibull
weight
weights
weijia
weird
weiss
welcome
welcoming
";

pub const WORDS_19: &'static str = "well
wendel
wenningplus
went
were
weren
werror
wes
wesley
wesselink
west
weyj
wfile
wformat
what
whatever
whatis
whats
whatsoever
whattoshow
whatwg
wheel
wheelcache
wheelhouse
wheels
when
whence
whenever
where
whereas
whereby
wherever
whether
which
whichdb
whichever
whien
while
whilst
whistles
white
whitelist
whitelisted
whitelisting
whitespace
whitespaces
whitlock
whitlockjc
whitten
who
whoever
whole
whom
whoops
whose
why
wicg
wide
widely
wider
widget
widgetname
widgets
widman
width
widths
wifstopped
wiggle
wiki
wikipedia
wilcox
wild
wildcard
wildcards
wildmatch
will
willhayslett
william
williams
willing
willmcgugan
wilson
win
winapi
winconfig
winconsistent
wind
windir
windll
window
windowbits
windowlist
windows
windowserror
windowsize
winerror
winexe
winfo
wink
winner
winpage
winreg
wins
winservice
winsock
wintypes
winver
wip
wipe
wire
wireshark
wise
wish
wishes
wishing
witch
with
withdraw
withdrawn
withfiletypes
within
without
witthawat
wix
wlen
wmaybe
wno
wnohang
wo
woff
wohlgemuth
woj
woken
wolf
wolfgang
wolfram
woll
woltman
women
won
wong
woning
wood
woods
word
wordchars
wording
words
wordstart
wordvar
work
workaround
workarounds
workdir
worked
worker
workerdata
workermessage
workers
workerthreadid
workflow
workflows
working
workingset
workitem
workload
workloads
works
workspace
workspaces
worktree
worktrees
world
worldwide
worried
worry
worse
worst
worth
wosign
would
wouldn
wouters
wow
wptrunner
wrap
wraparound
wraplength
wrapped
wrappedsocket
wrapper
wrappers
wrapping
wraps
wrapvar
wright
writable
writablecork
writablecorked
writableended
writablelength
writablestate
writablestream
writableuncork
write
writeable
writebuffer
writebuffers
writecontinue
writefile
writefilesync
writegeneric
writehead
writeheader
writeint
writeintbe
writeintle
writelines
writeln
writequeuesize
writer
writereport
writerow
writerows
writers
writes
writestr
writestream
writestring
writesync
writetransport
writeuint
writeuintbe
writeuintle
writev
writevsync
writewrap
writing
written
wrong
wrongly
wronly
wrote
wsa
wsaeinval
wsaeshutdown
wsasend
wsgi
wsgiref
wsign
wu
wunder
wunreachable
wunused
wxneeded
wyatt
xa
xaa
xaaf
xab
xabc
xac
xad
xadillax
xae
xaf
xargs
xavier
xba
xbar
xbe
xca
xcalloc
xcca
xce
xcode
xcoff
xcrun
xda
xdca
xde
xdiff
xe
xea
xeb
xec
xed
xee
xef
xfa
xfaa
xfab
xfac
xfad
xfba
xfce
xfe
xfuncname
xhmikosr
xi
xid
xlen
xmalloc
xmlbuilder
xmldsig
xmlenc
xmlreader
xmlrpclib
xmlsec
xmlsoft
xname
xor
xortiz
xours
xpath
xquartz
xrange
xread
xscale
xscroll
xscrollcommand
xterm
xtheirs
xu
xue
xuguang
xul
xview
xxdiff
xy
xyz
xyzzy
yadav
yadong
yael
yagiz
yahan
yahoo
yallop
yamada
yaml
yamlish
yamllexer
yamllint
yan
yang
yangyang
yaniv
yank
yanked
yann
yarn
yash
yashladha
yazhong
yb
ycjcl
ycor
yday
ye
year
years
yee
yellow
yemen
yen
yes
yesno
yesplease
yesterday
yet
yi
yield
yielded
yieldfrom
yielding
yields
yihong
yin
yitong
yiyun
yk
ym
ymd
yml
yn
yo
yojan
yongsheng
yoo
york
yorkie
yoshida
yoshiki
yoshiwara
yoshiya
yosuke
you
young
your
yourself
yourselves
youtube
yoyodyne
yscale
yscroll
yscrollcommand
yu
yuan
yuko
yum
yusuke
yuta
yutamakotaro
yuval
yuya
yuza
yview
ywave
yy
yz
za
zach
zack
zahidul
zaki
zap
zapping
zaslavsky
zasso
zaubernerd
zavery
zcbenz
zealand
zebra
zeigen
zeke
zel
zelenov
zero
zeroes
zerofill
zeropad
zeros
zeta
zfill
zhang
zhangzifa
zhao
zheng
zhengyuanjie
zherdev
zhou
zie
zijian
zimbabwe
zinfo
zip
zipapp
zipextfile
zipf
zipfile
zipimport
zipimporter
zipimporterror
zipinfo
zipped
zipreader
zips
zirak
zkat
zlib
zokas
zombie
zombies
zone
zoneinfo
zones
zongmin
zoo
zoom
zoomed
zoomheight
zope
zoslib
zoubin
ztext
zulu
zurawel
zuzana
zyszys
zzdummy
";

/// The full word-list text, piece by piece.
pub open spec fn word_list() -> Seq<char> {
    WORDS_01@ + WORDS_02@ + WORDS_03@ + WORDS_04@ + WORDS_05@ + WORDS_06@ + WORDS_07@ +
        WORDS_08@ + WORDS_09@ + WORDS_10@ + WORDS_11@ + WORDS_12@ + WORDS_13@ + WORDS_14@ +
        WORDS_15@ + WORDS_16@ + WORDS_17@ + WORDS_18@ + WORDS_19@
}

/// The full word-list text as one string.
pub fn word_list_string() -> (text: String)
    ensures
        text@ == word_list(),
{
    let mut text = String::new();
    text.append(WORDS_01);
    text.append(WORDS_02);
    text.append(WORDS_03);
    text.append(WORDS_04);
    text.append(WORDS_05);
    text.append(WORDS_06);
    text.append(WORDS_07);
    text.append(WORDS_08);
    text.append(WORDS_09);
    text.append(WORDS_10);
    text.append(WORDS_11);
    text.append(WORDS_12);
    text.append(WORDS_13);
    text.append(WORDS_14);
    text.append(WORDS_15);
    text.append(WORDS_16);
    text.append(WORDS_17);
    text.append(WORDS_18);
    text.append(WORDS_19);
    proof {
        assert(text@ =~= word_list());
    }
    text
}

} // verus!
